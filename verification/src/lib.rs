//! Verified core of a scene-graph layer over a ray-tracing engine.
//!
//! The engine itself is an outside collaborator: this crate holds the data
//! model, the wire layouts, the buffer-sharing rules, the id bookkeeping of a
//! scene and the decisions taken inside user-geometry callbacks. Every
//! function takes what the engine reported as plain values and returns what
//! is to be handed to the engine as plain values.
#![allow(non_snake_case)]
#![allow(non_camel_case_types)]

pub mod aabb;
pub mod buffer;
pub mod common;
pub mod device;
pub mod error;
pub mod float_bits;
pub mod geometry;
pub mod point_geometry;
pub mod polygon_geometry;
pub mod ray;
pub mod scene;
pub mod triangle_geometry;
pub mod type_format;
pub mod user_geometry;
pub mod vector;

pub use crate::aabb::{Bounds, AABB};
pub use crate::buffer::Buffer;
pub use crate::common::{BuildQuality, GeomID, INVALID_ID};
pub use crate::device::{set_flush_to_zero_mode, Device};
pub use crate::error::{format_error, ErrorKind};
pub use crate::float_bits::FloatBits;
pub use crate::geometry::{
    BindError, BufferType, Committed, Geometry, GeometryCommand, GeometryHandle, GeometryInternal,
    GeometryType, SharedBuffer,
};
pub use crate::point_geometry::{Disc, DiscGeometry, Sphere, SphereGeometry};
pub use crate::polygon_geometry::{PolygonMesh, PolygonType, Quad, QuadMesh, Triangle, TriangleMesh};
pub use crate::ray::{Hit, Ray, RayHit};
pub use crate::scene::{
    empty_intersect_context, IntersectContext, Scene, SceneBuilder, SceneCommand, SceneFlags,
    SceneHandle,
};
pub use crate::triangle_geometry::TriangleGeometry;
pub use crate::type_format::{Format, MatrixFormat, TypeFormat};
pub use crate::user_geometry::{
    apply_prim_hit, CallbackBridge, ErasedUserGeometry, UserGeometry, UserPrimHit, UserPrimitive,
    UserRecord,
};
pub use crate::vector::{Point3, Vector2, Vector3};
