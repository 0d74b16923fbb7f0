//! Triangle meshes with up to two vertex attributes of the caller's types.
use vstd::prelude::*;
use vstd::layout::size_of;
use crate::buffer::Buffer;
use crate::geometry::{
    is_shareable, shareable, slack_elements, BindError, BufferType, GeometryCommand, GeometryHandle,
    GeometryType,
};
use crate::type_format::{Format, TypeFormat};
use crate::vector::{lemma_vector_formats, Point3, Vector3};

verus! {

/// Three indices into the vertices of a mesh.
#[derive(Debug, Clone, Copy, PartialEq, Eq, Structural)]
pub struct Triangle(pub u32, pub u32, pub u32);

impl TypeFormat for Triangle {
    const FORMAT: Format = Format::u32x3;
}

/// A triangle mesh whose first vertex attribute has elements of type `T1`
/// and whose second has elements of type `T2`.
pub struct TriangleGeometry<T1: TypeFormat = Vector3, T2: TypeFormat = Vector3> {
    pub handle: GeometryHandle,
    pub indices: Buffer<Triangle>,
    pub vertices: Buffer<Point3>,
    pub attribs1: Option<Buffer<T1>>,
    pub attribs2: Option<Buffer<T2>>,
}

impl<T1: TypeFormat, T2: TypeFormat> TriangleGeometry<T1, T2> {
    /// The first attribute, if one was set.
    pub open spec fn attribs1_view(&self) -> Option<Seq<T1>> {
        match self.attribs1 {
            Some(buf) => Some(buf.data@),
            None => None,
        }
    }

    /// The second attribute, if one was set.
    pub open spec fn attribs2_view(&self) -> Option<Seq<T2>> {
        match self.attribs2 {
            Some(buf) => Some(buf.data@),
            None => None,
        }
    }

    /// The number of vertex-attribute slots in use: a second attribute
    /// alone still takes two.
    pub open spec fn attrib_count(&self) -> u32 {
        if self.attribs2 is Some {
            2
        } else if self.attribs1 is Some {
            1
        } else {
            0
        }
    }

    /// Whether two meshes have the same handle and the same contents.
    pub open spec fn same_contents(&self, other: &TriangleGeometry<T1, T2>) -> bool {
        &&& self.handle == other.handle
        &&& self.indices.data@ == other.indices.data@
        &&& self.vertices.data@ == other.vertices.data@
        &&& self.attribs1_view() == other.attribs1_view()
        &&& self.attribs2_view() == other.attribs2_view()
    }

    /// Whether no buffer of this mesh needs storage behind its last
    /// element, so that binding cannot fail.
    pub open spec fn needs_no_slack(&self) -> bool {
        &&& slack_elements(size_of::<Point3>(), BufferType::Vertex) == 0
        &&& self.attribs1 is Some ==> slack_elements(size_of::<T1>(), BufferType::VertexAttribute)
            == 0
        &&& self.attribs2 is Some ==> slack_elements(size_of::<T2>(), BufferType::VertexAttribute)
            == 0
    }

    /// Whether each of the four buffers can be shared under the format of
    /// its elements: see [`shareable`].
    pub open spec fn layout_shareable() -> bool {
        &&& shareable::<Triangle>(Triangle::FORMAT, 0)
        &&& shareable::<Point3>(Point3::FORMAT, 0)
        &&& shareable::<T1>(T1::FORMAT, 0)
        &&& shareable::<T2>(T2::FORMAT, 0)
    }

    /// Tests [`Self::layout_shareable`].
    pub fn is_layout_shareable() -> (b: bool)
        ensures
            b == Self::layout_shareable(),
    {
        is_shareable::<Triangle>(Triangle::FORMAT, 0) && is_shareable::<Point3>(Point3::FORMAT, 0)
            && is_shareable::<T1>(T1::FORMAT, 0) && is_shareable::<T2>(T2::FORMAT, 0)
    }

    /// Whether `commands` are the calls that hand this mesh to the engine,
    /// in the order in which they are to be made: indices, vertices, the
    /// number of attribute slots, each attribute that is present in its
    /// slot, and the commit.
    pub open spec fn committed_by(&self, commands: Seq<GeometryCommand>) -> bool {
        let with_first: int = if self.attribs1 is Some {
            1
        } else {
            0
        };
        let with_second: int = if self.attribs2 is Some {
            1
        } else {
            0
        };
        &&& commands.len() == 4 + with_first + with_second
        &&& commands[0].binds(
            BufferType::Index,
            0,
            Format::u32x3,
            0,
            size_of::<Triangle>(),
            self.indices.data@.len(),
        )
        &&& commands[1].binds(
            BufferType::Vertex,
            0,
            Format::f32x3,
            0,
            size_of::<Point3>(),
            self.vertices.data@.len(),
        )
        &&& commands[2] == GeometryCommand::SetVertexAttributeCount(self.attrib_count())
        &&& self.attribs1 matches Some(buf) ==> commands[3].binds(
            BufferType::VertexAttribute,
            0,
            T1::FORMAT,
            0,
            size_of::<T1>(),
            buf.data@.len(),
        )
        &&& self.attribs2 matches Some(buf) ==> commands[3 + with_first].binds(
            BufferType::VertexAttribute,
            1,
            T2::FORMAT,
            0,
            size_of::<T2>(),
            buf.data@.len(),
        )
        &&& commands.last() == GeometryCommand::Commit
    }

    /// A mesh without attributes around the handle `raw_handle` that the
    /// engine returned for a new geometry of kind
    /// [`GeometryType::Triangle`].
    pub fn new(raw_handle: usize, index_buffer: Vec<Triangle>, vertex_buffer: Vec<Point3>) -> (g:
        TriangleGeometry<T1, T2>)
        ensures
            g.handle.raw() == raw_handle,
            g.handle.kind() == GeometryType::Triangle,
            g.indices.data@ == index_buffer@,
            g.vertices.data@ == vertex_buffer@,
            g.attribs1 is None,
            g.attribs2 is None,
    {
        TriangleGeometry {
            handle: GeometryHandle::new(raw_handle, GeometryType::Triangle),
            indices: Buffer::new(index_buffer),
            vertices: Buffer::new(vertex_buffer),
            attribs1: None,
            attribs2: None,
        }
    }

    pub fn set_vertex_attrib_buffer_slot1(&mut self, buf: Vec<T1>)
        ensures
            final(self).attribs1_view() == Some(buf@),
            final(self).handle == old(self).handle,
            final(self).indices.data@ == old(self).indices.data@,
            final(self).vertices.data@ == old(self).vertices.data@,
            final(self).attribs2_view() == old(self).attribs2_view(),
    {
        self.attribs1 = Some(Buffer::new(buf));
    }

    pub fn set_vertex_attrib_buffer_slot2(&mut self, buf: Vec<T2>)
        ensures
            final(self).attribs2_view() == Some(buf@),
            final(self).handle == old(self).handle,
            final(self).indices.data@ == old(self).indices.data@,
            final(self).vertices.data@ == old(self).vertices.data@,
            final(self).attribs1_view() == old(self).attribs1_view(),
    {
        self.attribs2 = Some(Buffer::new(buf));
    }

    /// Finishes the mesh: prepares its buffers for being read by the engine
    /// and hands it back with the calls that share them and commit it.
    pub fn commit(self) -> (r: Result<(TriangleGeometry<T1, T2>, Vec<GeometryCommand>), BindError>)
        requires
            Self::layout_shareable(),
        ensures
            r matches Ok(c) ==> c.0.same_contents(&self) && c.0.committed_by(c.1@),
            r matches Err(e) ==> e == BindError::SlackUnavailable,
            self.needs_no_slack() ==> r is Ok,
    {
        let mut this = self;
        let mut attrib_count: u32 = 0;
        if this.attribs1.is_some() {
            attrib_count = 1;
        }
        if this.attribs2.is_some() {
            attrib_count = 2;
        }
        let mut commands: Vec<GeometryCommand> = Vec::new();
        let indices = this.indices.bind_to_geometry(&this.handle, BufferType::Index, 0)?;
        commands.push(GeometryCommand::SetSharedBuffer(indices));
        let vertices = this.vertices.bind_to_geometry(&this.handle, BufferType::Vertex, 0)?;
        commands.push(GeometryCommand::SetSharedBuffer(vertices));
        commands.push(GeometryCommand::SetVertexAttributeCount(attrib_count));
        match &mut this.attribs1 {
            Some(buf) => {
                let first = buf.bind_to_geometry(&this.handle, BufferType::VertexAttribute, 0)?;
                commands.push(GeometryCommand::SetSharedBuffer(first));
            },
            None => {},
        }
        match &mut this.attribs2 {
            Some(buf) => {
                let second = buf.bind_to_geometry(&this.handle, BufferType::VertexAttribute, 1)?;
                commands.push(GeometryCommand::SetSharedBuffer(second));
            },
            None => {},
        }
        commands.push(this.handle.commit());
        proof {
            lemma_vector_formats();
        }
        Ok((this, commands))
    }

    /// The handle of the engine object behind this mesh.
    pub fn get_handle(&self) -> (h: &GeometryHandle)
        ensures
            *h == self.handle,
    {
        &self.handle
    }
}

} // verus!
