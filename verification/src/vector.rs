//! Points and vectors of single-precision components.
use vstd::prelude::*;
use crate::float_bits::FloatBits;
use crate::type_format::{Format, TypeFormat};

verus! {

/// A position in space.
#[derive(Debug, Clone, Copy)]
pub struct Point3 {
    pub x: FloatBits,
    pub y: FloatBits,
    pub z: FloatBits,
}

impl Point3 {
    pub fn new(x: FloatBits, y: FloatBits, z: FloatBits) -> (p: Point3)
        ensures
            p == (Point3 { x, y, z }),
    {
        Point3 { x, y, z }
    }

    /// The point whose components are all positive zero.
    pub fn origin() -> (p: Point3)
        ensures
            p.x.bits == 0,
            p.y.bits == 0,
            p.z.bits == 0,
    {
        Point3 { x: FloatBits::zero(), y: FloatBits::zero(), z: FloatBits::zero() }
    }
}

/// A direction or displacement in space.
#[derive(Debug, Clone, Copy)]
pub struct Vector3 {
    pub x: FloatBits,
    pub y: FloatBits,
    pub z: FloatBits,
}

impl Vector3 {
    pub fn new(x: FloatBits, y: FloatBits, z: FloatBits) -> (v: Vector3)
        ensures
            v == (Vector3 { x, y, z }),
    {
        Vector3 { x, y, z }
    }

    /// The vector whose components are all positive zero.
    pub fn zero() -> (v: Vector3)
        ensures
            v.x.bits == 0,
            v.y.bits == 0,
            v.z.bits == 0,
    {
        Vector3 { x: FloatBits::zero(), y: FloatBits::zero(), z: FloatBits::zero() }
    }
}

/// A pair of surface parameters.
#[derive(Debug, Clone, Copy)]
pub struct Vector2 {
    pub x: FloatBits,
    pub y: FloatBits,
}

impl Vector2 {
    pub fn new(x: FloatBits, y: FloatBits) -> (v: Vector2)
        ensures
            v == (Vector2 { x, y }),
    {
        Vector2 { x, y }
    }

    /// The vector whose components are both positive zero.
    pub fn zero() -> (v: Vector2)
        ensures
            v.x.bits == 0,
            v.y.bits == 0,
    {
        Vector2 { x: FloatBits::zero(), y: FloatBits::zero() }
    }
}

impl TypeFormat for Point3 {
    const FORMAT: Format = Format::f32x3;
}

impl TypeFormat for Vector3 {
    const FORMAT: Format = Format::f32x3;
}

impl TypeFormat for Vector2 {
    const FORMAT: Format = Format::f32x2;
}

/// The format tags of points and vectors: as many float components as
/// they have fields.
pub proof fn lemma_vector_formats()
    ensures
        Point3::FORMAT == Format::f32x3,
        Vector3::FORMAT == Format::f32x3,
        Vector2::FORMAT == Format::f32x2,
{
}

} // verus!
