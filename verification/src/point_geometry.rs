//! Point primitives: spheres and oriented discs.
use vstd::prelude::*;
use vstd::layout::size_of;
use crate::common::BuildQuality;
use crate::float_bits::FloatBits;
use crate::geometry::{
    is_shareable, shareable, slack_elements, BindError, BufferType, Committed, Geometry, GeometryCommand,
    GeometryHandle, GeometryInternal, GeometryType,
};
use crate::type_format::Format;
use crate::vector::{Point3, Vector3};

verus! {

/// A sphere: four components, centre and radius.
#[derive(Debug, Clone, Copy)]
pub struct Sphere {
    pub center: Point3,
    pub radius: FloatBits,
}

/// A geometry made of spheres.
pub struct SphereGeometry {
    pub handle: GeometryHandle,
    pub prims: Vec<Sphere>,
}

impl SphereGeometry {
    /// Whether `commands` are the calls that hand this geometry to the
    /// engine: its records shared as positions with radius, then the commit.
    pub open spec fn built_by(&self, commands: Seq<GeometryCommand>) -> bool {
        &&& commands.len() == 2
        &&& commands[0].binds(
            BufferType::Vertex,
            0,
            Format::f32x4,
            0,
            size_of::<Sphere>(),
            self.prims@.len(),
        )
        &&& commands[1] == GeometryCommand::Commit
    }

    /// Whether the records can be shared as positions with radius: see
    /// [`shareable`].
    pub open spec fn layout_shareable() -> bool {
        shareable::<Sphere>(Format::f32x4, 0)
    }

    /// Tests [`Self::layout_shareable`].
    pub fn is_layout_shareable() -> (b: bool)
        ensures
            b == Self::layout_shareable(),
    {
        is_shareable::<Sphere>(Format::f32x4, 0)
    }

    /// A geometry of the given spheres around the handle `raw_handle` that
    /// the engine returned for a new geometry of kind
    /// [`GeometryType::Sphere`].
    pub fn new(raw_handle: usize, prims: Vec<Sphere>) -> (g: SphereGeometry)
        ensures
            g.handle.raw() == raw_handle,
            g.handle.kind() == GeometryType::Sphere,
            g.prims@ == prims@,
    {
        SphereGeometry { handle: GeometryHandle::new(raw_handle, GeometryType::Sphere), prims }
    }

    /// The call that sets the build quality of this geometry.
    pub fn set_build_quality(&self, quality: BuildQuality) -> (c: GeometryCommand)
        ensures
            c == GeometryCommand::SetBuildQuality(quality),
    {
        self.handle.set_build_quality(quality)
    }

    /// Finishes the geometry: prepares its records for being read by the
    /// engine and lists the calls that hand it over.
    pub fn build(self) -> (r: Result<Committed, BindError>)
        requires
            Self::layout_shareable(),
        ensures
            r matches Ok(c) ==> {
                &&& c.geometry.internal matches GeometryInternal::Spheres(g)
                &&& g.handle == self.handle
                &&& g.prims@ == self.prims@
                &&& g.built_by(c.commands@)
            },
            r matches Err(e) ==> e == BindError::SlackUnavailable,
            slack_elements(size_of::<Sphere>(), BufferType::Vertex) == 0 ==> r is Ok,
    {
        let mut this = self;
        let records = this.handle.bind_shared_geometry_buffer(
            &mut this.prims,
            BufferType::Vertex,
            Format::f32x4,
            0,
            0,
        )?;
        let mut commands: Vec<GeometryCommand> = Vec::new();
        commands.push(GeometryCommand::SetSharedBuffer(records));
        commands.push(this.handle.commit());
        Ok(Committed { geometry: Geometry::new(GeometryInternal::Spheres(this)), commands })
    }
}

/// An oriented disc: seven components, centre, radius and normal.
#[derive(Debug, Clone, Copy)]
pub struct Disc {
    pub center: Point3,
    pub radius: FloatBits,
    pub normal: Vector3,
}

/// Byte offset of the normal within a disc record laid out component after
/// component.
pub const DISC_NORMAL_OFFSET: usize = 16;

impl Disc {
    /// The record laid out component after component, word `i` at byte
    /// offset `4 * i`.
    pub open spec fn wire(self) -> Seq<u32> {
        seq![
            self.center.x.bits,
            self.center.y.bits,
            self.center.z.bits,
            self.radius.bits,
            self.normal.x.bits,
            self.normal.y.bits,
            self.normal.z.bits,
        ]
    }
}

/// In a disc record the position with radius takes the first four words and
/// the normal the three words from [`DISC_NORMAL_OFFSET`] on.
pub proof fn lemma_disc_layout(d: Disc)
    ensures
        DISC_NORMAL_OFFSET % 4 == 0,
        d.wire().len() == 7,
        d.wire().subrange(0, 4) == seq![
            d.center.x.bits,
            d.center.y.bits,
            d.center.z.bits,
            d.radius.bits,
        ],
        d.wire().subrange(DISC_NORMAL_OFFSET as int / 4, 7) == seq![
            d.normal.x.bits,
            d.normal.y.bits,
            d.normal.z.bits,
        ],
{
    assert(d.wire().subrange(0, 4) =~= seq![
        d.center.x.bits,
        d.center.y.bits,
        d.center.z.bits,
        d.radius.bits,
    ]);
    assert(d.wire().subrange(DISC_NORMAL_OFFSET as int / 4, 7) =~= seq![
        d.normal.x.bits,
        d.normal.y.bits,
        d.normal.z.bits,
    ]);
}

/// A geometry made of oriented discs.
pub struct DiscGeometry {
    pub handle: GeometryHandle,
    pub prims: Vec<Disc>,
}

impl DiscGeometry {
    /// Whether `commands` are the calls that hand this geometry to the
    /// engine: its records shared once as positions with radius and once,
    /// from the offset of the normal on, as normals, then the commit.
    pub open spec fn built_by(&self, commands: Seq<GeometryCommand>) -> bool {
        &&& commands.len() == 3
        &&& commands[0].binds(
            BufferType::Vertex,
            0,
            Format::f32x4,
            0,
            size_of::<Disc>(),
            self.prims@.len(),
        )
        &&& commands[1].binds(
            BufferType::Normal,
            0,
            Format::f32x3,
            DISC_NORMAL_OFFSET,
            size_of::<Disc>(),
            self.prims@.len(),
        )
        &&& commands[2] == GeometryCommand::Commit
    }

    /// Whether the records can be shared as positions with radius and, from
    /// the offset of the normal on, as normals: see [`shareable`].
    pub open spec fn layout_shareable() -> bool {
        &&& shareable::<Disc>(Format::f32x4, 0)
        &&& shareable::<Disc>(Format::f32x3, DISC_NORMAL_OFFSET)
    }

    /// Tests [`Self::layout_shareable`].
    pub fn is_layout_shareable() -> (b: bool)
        ensures
            b == Self::layout_shareable(),
    {
        is_shareable::<Disc>(Format::f32x4, 0) && is_shareable::<Disc>(
            Format::f32x3,
            DISC_NORMAL_OFFSET,
        )
    }

    /// A geometry of the given discs around the handle `raw_handle` that the
    /// engine returned for a new geometry of kind [`GeometryType::Disc`].
    pub fn new(raw_handle: usize, prims: Vec<Disc>) -> (g: DiscGeometry)
        ensures
            g.handle.raw() == raw_handle,
            g.handle.kind() == GeometryType::Disc,
            g.prims@ == prims@,
    {
        DiscGeometry { handle: GeometryHandle::new(raw_handle, GeometryType::Disc), prims }
    }

    /// The call that sets the build quality of this geometry.
    pub fn set_build_quality(&self, quality: BuildQuality) -> (c: GeometryCommand)
        ensures
            c == GeometryCommand::SetBuildQuality(quality),
    {
        self.handle.set_build_quality(quality)
    }

    /// Finishes the geometry: prepares its records for being read by the
    /// engine and lists the calls that hand it over.
    pub fn build(self) -> (r: Result<Committed, BindError>)
        requires
            Self::layout_shareable(),
        ensures
            r matches Ok(c) ==> {
                &&& c.geometry.internal matches GeometryInternal::Discs(g)
                &&& g.handle == self.handle
                &&& g.prims@ == self.prims@
                &&& g.built_by(c.commands@)
            },
            r matches Err(e) ==> e == BindError::SlackUnavailable,
            slack_elements(size_of::<Disc>(), BufferType::Vertex) == 0 ==> r is Ok,
    {
        let mut this = self;
        let positions = this.handle.bind_shared_geometry_buffer(
            &mut this.prims,
            BufferType::Vertex,
            Format::f32x4,
            0,
            0,
        )?;
        let normals = this.handle.bind_shared_geometry_buffer(
            &mut this.prims,
            BufferType::Normal,
            Format::f32x3,
            0,
            DISC_NORMAL_OFFSET,
        )?;
        let mut commands: Vec<GeometryCommand> = Vec::new();
        commands.push(GeometryCommand::SetSharedBuffer(positions));
        commands.push(GeometryCommand::SetSharedBuffer(normals));
        commands.push(this.handle.commit());
        Ok(Committed { geometry: Geometry::new(GeometryInternal::Discs(this)), commands })
    }
}

} // verus!
