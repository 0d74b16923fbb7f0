//! Indexed meshes of triangles and of quads.
use vstd::prelude::*;
use vstd::layout::size_of;
use crate::geometry::{
    is_shareable, shareable, slack_elements, BindError, BufferType, Committed, Geometry,
    GeometryCommand, GeometryHandle, GeometryInternal, GeometryType,
};
use crate::type_format::{Format, TypeFormat};
use crate::vector::{Point3, Vector2, Vector3};

verus! {

/// Three indices into the vertices of a mesh.
#[derive(Debug, Clone, Copy, PartialEq, Eq, Structural)]
pub struct Triangle {
    pub v0: u32,
    pub v1: u32,
    pub v2: u32,
}

impl Triangle {
    pub fn new(v0: u32, v1: u32, v2: u32) -> (t: Triangle)
        ensures
            t == (Triangle { v0, v1, v2 }),
    {
        Triangle { v0, v1, v2 }
    }
}

/// Four indices into the vertices of a mesh: the pair of triangles
/// `(v0, v1, v3)` and `(v2, v3, v1)`, whose corners should lie in one plane.
/// A quad with `v2 == v3` is a triangle, so both can be mixed in one mesh.
#[derive(Debug, Clone, Copy, PartialEq, Eq, Structural)]
pub struct Quad {
    pub v0: u32,
    pub v1: u32,
    pub v2: u32,
    pub v3: u32,
}

impl Quad {
    pub fn new(v0: u32, v1: u32, v2: u32, v3: u32) -> (q: Quad)
        ensures
            q == (Quad { v0, v1, v2, v3 }),
    {
        Quad { v0, v1, v2, v3 }
    }
}

impl TypeFormat for Triangle {
    const FORMAT: Format = Format::u32x3;
}

impl TypeFormat for Quad {
    const FORMAT: Format = Format::u32x4;
}

/// An index record that knows the kind of geometry it makes up.
pub trait PolygonType: TypeFormat {
    const POLYGON_TYPE: GeometryType;
}

impl PolygonType for Triangle {
    const POLYGON_TYPE: GeometryType = GeometryType::Triangle;
}

impl PolygonType for Quad {
    const POLYGON_TYPE: GeometryType = GeometryType::Quad;
}

/// The vertex-attribute slot of the normals.
pub const NORMALS_SLOT: u32 = 0;

/// The vertex-attribute slot of the texture coordinates.
pub const UV_SLOT: u32 = 1;

/// A mesh of polygons `P` over shared vertices, with optional normals and
/// texture coordinates per vertex.
pub struct PolygonMesh<P: PolygonType> {
    pub handle: GeometryHandle,
    pub indices: Vec<P>,
    pub vertices: Vec<Point3>,
    pub normals: Option<Vec<Vector3>>,
    pub tex_coords: Option<Vec<Vector2>>,
}

pub type TriangleMesh = PolygonMesh<Triangle>;

pub type QuadMesh = PolygonMesh<Quad>;

impl<P: PolygonType> PolygonMesh<P> {
    /// The normals, if any were set.
    pub open spec fn normals_view(&self) -> Option<Seq<Vector3>> {
        match self.normals {
            Some(data) => Some(data@),
            None => None,
        }
    }

    /// The texture coordinates, if any were set.
    pub open spec fn tex_coords_view(&self) -> Option<Seq<Vector2>> {
        match self.tex_coords {
            Some(data) => Some(data@),
            None => None,
        }
    }

    /// The number of vertex-attribute slots in use: the normals take the
    /// first and the texture coordinates the second, so texture coordinates
    /// alone still take two.
    pub open spec fn attrib_count(&self) -> u32 {
        if self.tex_coords is Some {
            2
        } else if self.normals is Some {
            1
        } else {
            0
        }
    }

    /// Whether each of the four buffers can be shared under its format: see
    /// [`shareable`].
    pub open spec fn layout_shareable() -> bool {
        &&& shareable::<P>(P::FORMAT, 0)
        &&& shareable::<Point3>(Format::f32x3, 0)
        &&& shareable::<Vector3>(Format::f32x3, 0)
        &&& shareable::<Vector2>(Format::f32x2, 0)
    }

    /// Whether `commands` are the calls that share the buffers of this mesh
    /// with the engine, in the order in which they are to be made: indices,
    /// vertices, the number of attribute slots, and then each attribute
    /// that is present in its slot.
    pub open spec fn bound_by(&self, commands: Seq<GeometryCommand>) -> bool {
        let with_normals: int = if self.normals is Some {
            1
        } else {
            0
        };
        let with_tex_coords: int = if self.tex_coords is Some {
            1
        } else {
            0
        };
        &&& commands.len() == 3 + with_normals + with_tex_coords
        &&& commands[0].binds(
            BufferType::Index,
            0,
            P::FORMAT,
            0,
            size_of::<P>(),
            self.indices@.len(),
        )
        &&& commands[1].binds(
            BufferType::Vertex,
            0,
            Format::f32x3,
            0,
            size_of::<Point3>(),
            self.vertices@.len(),
        )
        &&& commands[2] == GeometryCommand::SetVertexAttributeCount(self.attrib_count())
        &&& self.normals matches Some(data) ==> commands[3].binds(
            BufferType::VertexAttribute,
            NORMALS_SLOT,
            Format::f32x3,
            0,
            size_of::<Vector3>(),
            data@.len(),
        )
        &&& self.tex_coords matches Some(data) ==> commands[3 + with_normals].binds(
            BufferType::VertexAttribute,
            UV_SLOT,
            Format::f32x2,
            0,
            size_of::<Vector2>(),
            data@.len(),
        )
    }

    /// Whether no buffer of this mesh needs storage behind its last
    /// element, so that binding cannot fail.
    pub open spec fn needs_no_slack(&self) -> bool {
        &&& slack_elements(size_of::<Point3>(), BufferType::Vertex) == 0
        &&& self.normals is Some ==> slack_elements(
            size_of::<Vector3>(),
            BufferType::VertexAttribute,
        ) == 0
        &&& self.tex_coords is Some ==> slack_elements(
            size_of::<Vector2>(),
            BufferType::VertexAttribute,
        ) == 0
    }

    /// Whether two meshes have the same handle and the same contents.
    pub open spec fn same_contents(&self, other: &PolygonMesh<P>) -> bool {
        &&& self.handle == other.handle
        &&& self.indices@ == other.indices@
        &&& self.vertices@ == other.vertices@
        &&& self.normals_view() == other.normals_view()
        &&& self.tex_coords_view() == other.tex_coords_view()
    }

    /// A mesh without attributes around the handle `raw_handle` that the
    /// engine returned for a new geometry of kind `P::POLYGON_TYPE`.
    pub fn new(raw_handle: usize, index_buffer: Vec<P>, vertex_buffer: Vec<Point3>) -> (m:
        PolygonMesh<P>)
        ensures
            m.handle.raw() == raw_handle,
            m.handle.kind() == P::POLYGON_TYPE,
            m.indices@ == index_buffer@,
            m.vertices@ == vertex_buffer@,
            m.normals is None,
            m.tex_coords is None,
    {
        PolygonMesh {
            handle: GeometryHandle::new(raw_handle, P::POLYGON_TYPE),
            indices: index_buffer,
            vertices: vertex_buffer,
            normals: None,
            tex_coords: None,
        }
    }

    pub fn set_normal_buffer(&mut self, buf: Vec<Vector3>)
        ensures
            final(self).normals_view() == Some(buf@),
            final(self).handle == old(self).handle,
            final(self).indices@ == old(self).indices@,
            final(self).vertices@ == old(self).vertices@,
            final(self).tex_coords_view() == old(self).tex_coords_view(),
    {
        self.normals = Some(buf);
    }

    pub fn set_texcoord_buffer(&mut self, buf: Vec<Vector2>)
        ensures
            final(self).tex_coords_view() == Some(buf@),
            final(self).handle == old(self).handle,
            final(self).indices@ == old(self).indices@,
            final(self).vertices@ == old(self).vertices@,
            final(self).normals_view() == old(self).normals_view(),
    {
        self.tex_coords = Some(buf);
    }

    /// Tests [`Self::layout_shareable`].
    pub fn is_layout_shareable() -> (b: bool)
        ensures
            b == Self::layout_shareable(),
    {
        is_shareable::<P>(P::FORMAT, 0) && is_shareable::<Point3>(Format::f32x3, 0)
            && is_shareable::<Vector3>(Format::f32x3, 0) && is_shareable::<Vector2>(
            Format::f32x2,
            0,
        )
    }

    /// Prepares every buffer of the mesh for being read by the engine and
    /// lists the calls that share them: see [`Self::bound_by`]. The contents
    /// of the mesh stay as they are.
    pub fn bind_buffers(&mut self) -> (r: Result<Vec<GeometryCommand>, BindError>)
        requires
            Self::layout_shareable(),
        ensures
            final(self).handle == old(self).handle,
            final(self).indices@ == old(self).indices@,
            final(self).vertices@ == old(self).vertices@,
            final(self).normals_view() == old(self).normals_view(),
            final(self).tex_coords_view() == old(self).tex_coords_view(),
            r matches Ok(commands) ==> final(self).bound_by(commands@),
            r matches Err(e) ==> e == BindError::SlackUnavailable,
            old(self).needs_no_slack() ==> r is Ok,
    {
        let mut attrib_count: u32 = 0;
        if self.normals.is_some() {
            attrib_count = NORMALS_SLOT + 1;
        }
        if self.tex_coords.is_some() {
            attrib_count = UV_SLOT + 1;
        }
        let mut commands: Vec<GeometryCommand> = Vec::new();
        let indices = self.handle.bind_shared_geometry_buffer(
            &mut self.indices,
            BufferType::Index,
            P::FORMAT,
            0,
            0,
        )?;
        commands.push(GeometryCommand::SetSharedBuffer(indices));
        let vertices = self.handle.bind_shared_geometry_buffer(
            &mut self.vertices,
            BufferType::Vertex,
            Format::f32x3,
            0,
            0,
        )?;
        commands.push(GeometryCommand::SetSharedBuffer(vertices));
        commands.push(GeometryCommand::SetVertexAttributeCount(attrib_count));
        match &mut self.normals {
            Some(data) => {
                let normals = self.handle.bind_shared_geometry_buffer(
                    data,
                    BufferType::VertexAttribute,
                    Format::f32x3,
                    NORMALS_SLOT,
                    0,
                )?;
                commands.push(GeometryCommand::SetSharedBuffer(normals));
            },
            None => {},
        }
        match &mut self.tex_coords {
            Some(data) => {
                let tex_coords = self.handle.bind_shared_geometry_buffer(
                    data,
                    BufferType::VertexAttribute,
                    Format::f32x2,
                    UV_SLOT,
                    0,
                )?;
                commands.push(GeometryCommand::SetSharedBuffer(tex_coords));
            },
            None => {},
        }
        Ok(commands)
    }
}

impl PolygonMesh<Triangle> {
    /// Finishes the mesh: prepares its buffers for being read by the engine
    /// and lists the calls that share them, then the commit.
    pub fn commit(self) -> (r: Result<Committed, BindError>)
        requires
            Self::layout_shareable(),
        ensures
            r matches Ok(c) ==> {
                &&& c.geometry.internal matches GeometryInternal::Triangles(m)
                &&& m.same_contents(&self)
                &&& c.commands@.len() > 0
                &&& m.bound_by(c.commands@.drop_last())
                &&& c.commands@.last() == GeometryCommand::Commit
            },
            r matches Err(e) ==> e == BindError::SlackUnavailable,
            self.needs_no_slack() ==> r is Ok,
    {
        let mut this = self;
        let mut commands = this.bind_buffers()?;
        let ghost bindings = commands@;
        commands.push(this.handle.commit());
        assert(commands@.drop_last() =~= bindings);
        Ok(Committed { geometry: Geometry::new(GeometryInternal::Triangles(this)), commands })
    }
}

impl PolygonMesh<Quad> {
    /// Finishes the mesh: prepares its buffers for being read by the engine
    /// and lists the calls that share them, then the commit.
    pub fn commit(self) -> (r: Result<Committed, BindError>)
        requires
            Self::layout_shareable(),
        ensures
            r matches Ok(c) ==> {
                &&& c.geometry.internal matches GeometryInternal::Quads(m)
                &&& m.same_contents(&self)
                &&& c.commands@.len() > 0
                &&& m.bound_by(c.commands@.drop_last())
                &&& c.commands@.last() == GeometryCommand::Commit
            },
            r matches Err(e) ==> e == BindError::SlackUnavailable,
            self.needs_no_slack() ==> r is Ok,
    {
        let mut this = self;
        let mut commands = this.bind_buffers()?;
        let ghost bindings = commands@;
        commands.push(this.handle.commit());
        assert(commands@.drop_last() =~= bindings);
        Ok(Committed { geometry: Geometry::new(GeometryInternal::Quads(this)), commands })
    }
}

/// Every attribute that a mesh binds lies in a slot below the number of
/// slots that was set before it.
pub proof fn lemma_attribute_slots_in_range<P: PolygonType>(
    mesh: PolygonMesh<P>,
    commands: Seq<GeometryCommand>,
    i: int,
)
    requires
        mesh.bound_by(commands),
        3 <= i < commands.len(),
    ensures
        commands[2] == GeometryCommand::SetVertexAttributeCount(mesh.attrib_count()),
        commands[i] matches GeometryCommand::SetSharedBuffer(b) && b.buf_type
            == BufferType::VertexAttribute && b.slot < mesh.attrib_count(),
{
}

} // verus!
