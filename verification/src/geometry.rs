//! Geometry handles and the rules for sharing a buffer with the engine.
use vstd::prelude::*;
use vstd::layout::size_of;
use crate::common::BuildQuality;
use crate::point_geometry::{DiscGeometry, SphereGeometry};
use crate::polygon_geometry::{QuadMesh, TriangleMesh};
use crate::type_format::{Format, MatrixFormat};
use crate::user_geometry::{uniform_ids, ErasedUserGeometry};

verus! {

/// The kinds of geometry the engine is asked to create.
#[derive(Debug, Clone, Copy, PartialEq, Eq, Structural)]
pub enum GeometryType {
    Triangle,
    Quad,
    Sphere,
    Disc,
    User,
}

impl GeometryType {
    /// The engine's code for this kind.
    pub open spec fn code(self) -> i32 {
        match self {
            GeometryType::Triangle => 0,
            GeometryType::Quad => 1,
            GeometryType::Sphere => 50,
            GeometryType::Disc => 52,
            GeometryType::User => 120,
        }
    }
}

impl From<GeometryType> for i32 {
    fn from(geom_type: GeometryType) -> (code: i32) {
        match geom_type {
            GeometryType::Triangle => 0,
            GeometryType::Quad => 1,
            GeometryType::Sphere => 50,
            GeometryType::Disc => 52,
            GeometryType::User => 120,
        }
    }
}

impl vstd::std_specs::convert::FromSpecImpl<GeometryType> for i32 {
    open spec fn obeys_from_spec() -> bool {
        true
    }

    open spec fn from_spec(geom_type: GeometryType) -> i32 {
        geom_type.code()
    }
}

/// The role under which a buffer is bound to a geometry.
#[derive(Debug, Clone, Copy, PartialEq, Eq, Structural)]
pub enum BufferType {
    Index,
    Vertex,
    VertexAttribute,
    Normal,
}

impl BufferType {
    /// The engine's code for this role.
    pub open spec fn code(self) -> i32 {
        match self {
            BufferType::Index => 0,
            BufferType::Vertex => 1,
            BufferType::VertexAttribute => 2,
            BufferType::Normal => 3,
        }
    }

    /// Whether the engine reads buffers of this role in 16-byte bursts, and
    /// so may read past the last element.
    pub open spec fn read_in_bursts(self) -> bool {
        self == BufferType::Vertex || self == BufferType::VertexAttribute
    }
}

impl From<BufferType> for i32 {
    fn from(buf_type: BufferType) -> (code: i32) {
        match buf_type {
            BufferType::Index => 0,
            BufferType::Vertex => 1,
            BufferType::VertexAttribute => 2,
            BufferType::Normal => 3,
        }
    }
}

impl vstd::std_specs::convert::FromSpecImpl<BufferType> for i32 {
    open spec fn obeys_from_spec() -> bool {
        true
    }

    open spec fn from_spec(buf_type: BufferType) -> i32 {
        buf_type.code()
    }
}

/// The number of elements of storage that must lie behind the last element
/// of a buffer with elements of `elem_size` bytes bound under `buf_type`.
pub open spec fn slack_elements(elem_size: nat, buf_type: BufferType) -> nat {
    if !buf_type.read_in_bursts() {
        0
    } else if elem_size == 4 {
        3
    } else if elem_size % 16 == 0 {
        0
    } else {
        1
    }
}

/// Computes [`slack_elements`].
pub fn required_slack(elem_size: usize, buf_type: BufferType) -> (n: usize)
    ensures
        n == slack_elements(elem_size as nat, buf_type),
{
    match buf_type {
        BufferType::Vertex | BufferType::VertexAttribute => {
            if elem_size == 4 {
                3
            } else if elem_size % 16 == 0 {
                0
            } else {
                1
            }
        },
        _ => 0,
    }
}

/// What the engine is told when a buffer is shared with it. The address of
/// the first element is the caller's to add.
#[derive(Debug, Clone, Copy, PartialEq, Eq, Structural)]
pub struct SharedBuffer {
    pub buf_type: BufferType,
    pub slot: u32,
    pub format: Format,
    /// Offset in bytes of the first element from the start of the storage.
    pub byte_offset: usize,
    /// Distance in bytes from one element to the next.
    pub stride: usize,
    /// Number of elements.
    pub count: usize,
    /// Elements of storage behind the last one, as measured at binding time.
    pub spare: usize,
}

impl SharedBuffer {
    /// Whether this describes `count` elements of `stride` bytes each, read
    /// under `buf_type` in `slot` as `format` from `byte_offset` on, within
    /// the rules that the engine relies on.
    pub open spec fn describes(
        self,
        buf_type: BufferType,
        slot: u32,
        format: Format,
        byte_offset: usize,
        stride: nat,
        count: nat,
    ) -> bool {
        &&& self.buf_type == buf_type
        &&& self.slot == slot
        &&& self.format == format
        &&& self.byte_offset == byte_offset
        &&& self.stride == stride
        &&& self.count == count
        &&& self.well_formed()
    }

    /// The rules that the engine relies on: offset and stride are multiples
    /// of four bytes, an element of the format lies within one stride from
    /// the offset on, and the storage has the slack that the role asks for.
    pub open spec fn well_formed(self) -> bool {
        &&& self.byte_offset % 4 == 0
        &&& self.stride % 4 == 0
        &&& self.byte_offset + 4 * self.format.components() <= self.stride
        &&& self.spare >= slack_elements(self.stride as nat, self.buf_type)
    }
}

/// The slack rule by element size: a described buffer that the engine reads
/// in bursts has three spare elements where an element is 4 bytes, and one
/// where its size is neither 4 nor a multiple of 16.
pub proof fn lemma_slack_by_element_size(b: SharedBuffer)
    requires
        b.well_formed(),
        b.buf_type.read_in_bursts(),
    ensures
        b.stride == 4 ==> b.spare >= 3,
        b.stride != 4 && b.stride % 16 != 0 ==> b.spare >= 1,
{
}

/// Every element of a described buffer lies inside the storage of its
/// `count` elements.
pub proof fn lemma_elements_lie_in_storage(b: SharedBuffer, i: int)
    requires
        b.well_formed(),
        0 <= i < b.count,
    ensures
        0 <= b.byte_offset + i * b.stride,
        b.byte_offset + i * b.stride + 4 * b.format.components() <= b.count * b.stride,
{
    assert(i * b.stride + b.stride <= b.count * b.stride) by (nonlinear_arith)
        requires
            0 <= i < b.count,
            0 <= b.stride,
    ;
    assert(0 <= i * b.stride) by (nonlinear_arith)
        requires
            0 <= i,
            0 <= b.stride,
    ;
}

/// What the slack is for: where the engine reads a buffer in bursts of 16
/// bytes from the start of each element, and the elements start at the
/// start of the storage, every burst ends inside the storage of the
/// elements and the slack behind them.
pub proof fn lemma_burst_reads_stay_in_storage(b: SharedBuffer, i: int)
    requires
        b.well_formed(),
        b.buf_type.read_in_bursts(),
        b.byte_offset == 0,
        0 <= i < b.count,
    ensures
        i * b.stride + 16 <= (b.count + b.spare) * b.stride,
{
    let stride = b.stride as int;
    let count = b.count as int;
    let spare = b.spare as int;
    assert(stride >= 4);
    assert(i * stride <= (count - 1) * stride) by (nonlinear_arith)
        requires
            0 <= i <= count - 1,
            0 <= stride,
    ;
    if stride == 4 {
        assert((count + spare) * stride == (count - 1) * stride + (spare + 1) * stride)
            by (nonlinear_arith);
        assert((spare + 1) * stride >= 16) by (nonlinear_arith)
            requires
                spare >= 3,
                stride == 4,
        ;
    } else if stride % 16 == 0 {
        assert(stride >= 16);
        assert((count + spare) * stride >= (count - 1) * stride + stride) by (nonlinear_arith)
            requires
                spare >= 0,
                stride >= 0,
        ;
    } else {
        assert(stride >= 8);
        assert((count + spare) * stride >= (count - 1) * stride + 2 * stride)
            by (nonlinear_arith)
            requires
                spare >= 1,
                stride >= 0,
        ;
    }
}

/// Why a buffer could not be shared.
#[derive(Debug, Clone, Copy, PartialEq, Eq, Structural)]
pub enum BindError {
    /// The storage behind the last element could not be had.
    SlackUnavailable,
}

/// One call to be made on the engine's geometry object.
#[derive(Debug, Clone, Copy, PartialEq, Eq, Structural)]
pub enum GeometryCommand {
    SetBuildQuality(BuildQuality),
    /// Set the transform of the geometry from a matrix in the given layout.
    /// The address of the matrix is the caller's to add.
    SetTransform(MatrixFormat),
    SetVertexAttributeCount(u32),
    SetSharedBuffer(SharedBuffer),
    SetUserPrimitiveCount(u32),
    /// Hand the engine the geometry itself as the data of its callbacks.
    SetUserData,
    SetBoundsFunction,
    SetIntersectFunction,
    SetOccludedFunction,
    Commit,
}

impl GeometryCommand {
    /// Whether this call shares a buffer that
    /// [`describes`](SharedBuffer::describes) the given elements.
    pub open spec fn binds(
        self,
        buf_type: BufferType,
        slot: u32,
        format: Format,
        byte_offset: usize,
        stride: nat,
        count: nat,
    ) -> bool {
        self matches GeometryCommand::SetSharedBuffer(b) && b.describes(
            buf_type,
            slot,
            format,
            byte_offset,
            stride,
            count,
        )
    }
}

/// Whether an array of elements of type `T` can be shared with the engine
/// as elements of `format` that start `byte_offset` bytes into each `T`:
/// the elements of the array lie a multiple of four bytes apart, the offset
/// is a multiple of four bytes, and an element of the format ends where its
/// `T` ends or before.
pub open spec fn shareable<T>(format: Format, byte_offset: usize) -> bool {
    &&& size_of::<T>() % 4 == 0
    &&& byte_offset % 4 == 0
    &&& byte_offset + 4 * format.components() <= size_of::<T>()
}

/// Tests [`shareable`].
pub fn is_shareable<T>(format: Format, byte_offset: usize) -> (b: bool)
    ensures
        b == shareable::<T>(format, byte_offset),
{
    let elem_size: usize = core::mem::size_of::<T>();
    elem_size % 4 == 0 && byte_offset % 4 == 0 && byte_offset <= elem_size && format.byte_size()
        <= elem_size - byte_offset
}

/// Calls `Vec::capacity`, the number of elements the vector can hold
/// without reallocating. Nothing is claimed of the result: what an
/// allocator gave is measured, not predicted.
#[verifier::external_body]
fn capacity_of<T>(data: &Vec<T>) -> usize {
    data.capacity()
}

/// The description of a buffer of `count` elements of `elem_size` bytes with
/// `spare` elements of storage behind them: refused where that is too little
/// slack for the role.
pub open spec fn shared_buffer_for(
    elem_size: usize,
    count: usize,
    spare: usize,
    buf_type: BufferType,
    format: Format,
    slot: u32,
    byte_offset: usize,
) -> Result<SharedBuffer, BindError> {
    if spare < slack_elements(elem_size as nat, buf_type) {
        Err(BindError::SlackUnavailable)
    } else {
        Ok(SharedBuffer { buf_type, slot, format, byte_offset, stride: elem_size, count, spare })
    }
}

/// Computes [`shared_buffer_for`].
pub fn describe_shared_buffer(
    elem_size: usize,
    count: usize,
    spare: usize,
    buf_type: BufferType,
    format: Format,
    slot: u32,
    byte_offset: usize,
) -> (r: Result<SharedBuffer, BindError>)
    ensures
        r == shared_buffer_for(elem_size, count, spare, buf_type, format, slot, byte_offset),
{
    if spare < required_slack(elem_size, buf_type) {
        Err(BindError::SlackUnavailable)
    } else {
        Ok(SharedBuffer { buf_type, slot, format, byte_offset, stride: elem_size, count, spare })
    }
}

/// Opaque handle of one geometry object inside the engine.
#[derive(Debug, Clone, Copy, PartialEq, Eq, Structural)]
pub struct GeometryHandle {
    raw: usize,
    geom_type: GeometryType,
}

impl GeometryHandle {
    /// The engine's handle value.
    pub closed spec fn raw(&self) -> usize {
        self.raw
    }

    /// The kind the geometry was created as.
    pub closed spec fn kind(&self) -> GeometryType {
        self.geom_type
    }

    /// Wraps the handle that the engine returned for a new geometry of kind
    /// `geom_type`.
    pub fn new(raw: usize, geom_type: GeometryType) -> (h: GeometryHandle)
        ensures
            h.raw() == raw,
            h.kind() == geom_type,
    {
        GeometryHandle { raw, geom_type }
    }

    /// The engine's handle value.
    pub fn as_raw(&self) -> (raw: usize)
        ensures
            raw == self.raw(),
    {
        self.raw
    }

    /// The kind the geometry was created as.
    pub fn geometry_type(&self) -> (geom_type: GeometryType)
        ensures
            geom_type == self.kind(),
    {
        self.geom_type
    }

    /// The call that sets the build quality of this geometry.
    pub fn set_build_quality(&self, quality: BuildQuality) -> (c: GeometryCommand)
        ensures
            c == GeometryCommand::SetBuildQuality(quality),
    {
        GeometryCommand::SetBuildQuality(quality)
    }

    /// The call that sets the transform of this geometry from a matrix laid
    /// out as `format` says.
    pub fn set_transform(&self, format: MatrixFormat) -> (c: GeometryCommand)
        ensures
            c == GeometryCommand::SetTransform(format),
    {
        GeometryCommand::SetTransform(format)
    }

    /// The call that finalises this geometry.
    pub fn commit(&self) -> (c: GeometryCommand)
        ensures
            c == GeometryCommand::Commit,
    {
        GeometryCommand::Commit
    }

    /// Prepares `data` for being read by the engine under `buf_type` in
    /// `slot`, as elements of `format` that start `byte_offset` bytes into
    /// each `T`, and describes it.
    ///
    /// Where the role asks for slack behind the last element, the slack is
    /// reserved first; the contents stay as they are. Every description
    /// handed out obeys the slack rule, and one is always handed out where
    /// the rule asks for no slack.
    pub fn bind_shared_geometry_buffer<T>(
        &self,
        data: &mut Vec<T>,
        buf_type: BufferType,
        format: Format,
        slot: u32,
        byte_offset: usize,
    ) -> (r: Result<SharedBuffer, BindError>)
        requires
            shareable::<T>(format, byte_offset),
        ensures
            final(data)@ == old(data)@,
            r matches Ok(b) ==> b.describes(
                buf_type,
                slot,
                format,
                byte_offset,
                size_of::<T>(),
                old(data)@.len(),
            ),
            r matches Err(e) ==> e == BindError::SlackUnavailable,
            slack_elements(size_of::<T>(), buf_type) == 0 ==> r is Ok,
    {
        let elem_size: usize = core::mem::size_of::<T>();
        let need: usize = required_slack(elem_size, buf_type);
        if need > 0 {
            if data.try_reserve(need).is_err() {
                return Err(BindError::SlackUnavailable);
            }
        }
        let count: usize = data.len();
        let spare: usize = capacity_of(data).saturating_sub(count);
        describe_shared_buffer(elem_size, count, spare, buf_type, format, slot, byte_offset)
    }
}

/// The geometry kinds, each with its handle and the buffers that feed it.
pub enum GeometryInternal {
    Triangles(TriangleMesh),
    Quads(QuadMesh),
    Spheres(SphereGeometry),
    Discs(DiscGeometry),
    User(ErasedUserGeometry),
}

/// A finished geometry of any kind, as it is attached to a scene.
pub struct Geometry {
    pub internal: GeometryInternal,
}

impl Geometry {
    /// The handle of the engine object behind this geometry.
    pub open spec fn handle_view(&self) -> GeometryHandle {
        match self.internal {
            GeometryInternal::Triangles(t) => t.handle,
            GeometryInternal::Quads(q) => q.handle,
            GeometryInternal::Spheres(s) => s.handle,
            GeometryInternal::Discs(d) => d.handle,
            GeometryInternal::User(u) => u.object.handle_view(),
        }
    }

    /// Whether this is `before` after a scene assigned it the id `id`: a
    /// user geometry holds the id on every primitive record, and any other
    /// geometry is as it was.
    pub open spec fn stamped_from(&self, before: &Geometry, id: u32) -> bool {
        match (before.internal, self.internal) {
            (GeometryInternal::User(old_user), GeometryInternal::User(new_user)) => {
                &&& new_user.object.handle_view() == old_user.object.handle_view()
                &&& new_user.object.geom_ids() == uniform_ids(
                    old_user.object.geom_ids().len(),
                    id,
                )
            },
            (GeometryInternal::User(_), _) => false,
            _ => *self == *before,
        }
    }

    pub fn new(geom: GeometryInternal) -> (g: Geometry)
        ensures
            g.internal == geom,
    {
        Geometry { internal: geom }
    }

    /// The handle of the engine object behind this geometry.
    pub fn handle(&self) -> (h: &GeometryHandle)
        ensures
            *h == self.handle_view(),
    {
        match &self.internal {
            GeometryInternal::Triangles(t) => &t.handle,
            GeometryInternal::Quads(q) => &q.handle,
            GeometryInternal::Spheres(s) => &s.handle,
            GeometryInternal::Discs(d) => &d.handle,
            GeometryInternal::User(u) => u.object.handle(),
        }
    }

    /// Records the id that a scene assigned: see [`Self::stamped_from`].
    pub fn set_geom_id(&mut self, id: u32)
        ensures
            final(self).stamped_from(old(self), id),
            final(self).handle_view() == old(self).handle_view(),
    {
        match &mut self.internal {
            GeometryInternal::User(u) => {
                u.object.set_geom_id(id);
            },
            _ => {},
        }
    }
}

/// A finished geometry together with the calls that make the engine's
/// object match it, in the order in which they are to be made.
pub struct Committed {
    pub geometry: Geometry,
    pub commands: Vec<GeometryCommand>,
}

} // verus!
