//! Scenes: the builder that collects geometries under the ids the engine
//! assigns, and the frozen scene that answers queries.
use vstd::prelude::*;
use vec_map::VecMap;
use crate::aabb::{Bounds, AABB};
use crate::common::{BuildQuality, GeomID, INVALID_ID};
use crate::float_bits::{FloatBits, NEG_INFINITY_BITS};
use crate::geometry::Geometry;
use crate::ray::{Hit, Ray, RayHit};

verus! {

/// The bit of the flag that asks for a scene that is cheap to update.
pub const SCENE_FLAG_DYNAMIC: i32 = 1;

/// The bit of the flag that asks for a scene that is small in memory.
pub const SCENE_FLAG_COMPACT: i32 = 2;

/// The bit of the flag that asks for robust arithmetic in traversal.
pub const SCENE_FLAG_ROBUST: i32 = 4;

/// Every bit that is a flag.
pub const SCENE_FLAG_ALL: i32 = 7;

/// A set of scene flags.
#[derive(Debug, Clone, Copy, PartialEq, Eq, Structural)]
pub struct SceneFlags {
    bits: i32,
}

impl View for SceneFlags {
    type V = i32;

    /// The bits of the flags in the set.
    closed spec fn view(&self) -> i32 {
        self.bits
    }
}

impl SceneFlags {
    /// A set holds no bit that is not a flag.
    #[verifier::type_invariant]
    pub closed spec fn valid(self) -> bool {
        0 <= self.bits <= SCENE_FLAG_ALL
    }

    /// The set whose bits are `bits`.
    pub closed spec fn of_bits(bits: i32) -> SceneFlags {
        SceneFlags { bits }
    }

    /// A set is known by its bits.
    pub proof fn lemma_known_by_bits(self, other: SceneFlags)
        ensures
            self@ == other@ <==> self == other,
            SceneFlags::of_bits(self@) == self,
    {
    }

    /// The set with exactly the flags whose bits are set in `bits`; bits
    /// that are no flag are dropped.
    pub open spec fn truncated(bits: i32) -> SceneFlags {
        SceneFlags::of_bits(bits & SCENE_FLAG_ALL)
    }

    /// The set of the flags that are in either set.
    pub open spec fn joined(self, other: SceneFlags) -> SceneFlags {
        SceneFlags::of_bits(self@ | other@)
    }

    /// Whether every flag of `other` is in this set.
    pub open spec fn spec_contains(&self, other: SceneFlags) -> bool {
        self@ & other@ == other@
    }

    pub fn empty() -> (f: SceneFlags)
        ensures
            f@ == 0,
            f.valid(),
    {
        SceneFlags { bits: 0 }
    }

    pub fn all() -> (f: SceneFlags)
        ensures
            f@ == SCENE_FLAG_ALL,
            f.valid(),
    {
        SceneFlags { bits: SCENE_FLAG_ALL }
    }

    pub fn dynamic() -> (f: SceneFlags)
        ensures
            f@ == SCENE_FLAG_DYNAMIC,
            f.valid(),
    {
        SceneFlags { bits: SCENE_FLAG_DYNAMIC }
    }

    pub fn compact() -> (f: SceneFlags)
        ensures
            f@ == SCENE_FLAG_COMPACT,
            f.valid(),
    {
        SceneFlags { bits: SCENE_FLAG_COMPACT }
    }

    pub fn robust() -> (f: SceneFlags)
        ensures
            f@ == SCENE_FLAG_ROBUST,
            f.valid(),
    {
        SceneFlags { bits: SCENE_FLAG_ROBUST }
    }

    /// The bits of the flags in the set.
    pub fn bits(&self) -> (bits: i32)
        ensures
            bits == self@,
            0 <= bits <= SCENE_FLAG_ALL,
    {
        proof {
            use_type_invariant(self);
        }
        self.bits
    }

    /// The set with exactly the flags whose bits are set in `bits`.
    pub fn from_bits_truncate(bits: i32) -> (f: SceneFlags)
        ensures
            f == SceneFlags::truncated(bits),
            f@ == bits & SCENE_FLAG_ALL,
            f.valid(),
    {
        let kept: i32 = bits & SCENE_FLAG_ALL;
        assert(0 <= kept <= 7) by (bit_vector)
            requires
                kept == bits & 7i32,
        ;
        SceneFlags { bits: kept }
    }

    /// The set of the flags that are in either set.
    pub fn union(self, other: SceneFlags) -> (f: SceneFlags)
        ensures
            f == self.joined(other),
            f@ == self@ | other@,
            f.valid(),
    {
        proof {
            use_type_invariant(self);
            use_type_invariant(other);
        }
        let a: i32 = self.bits;
        let b: i32 = other.bits;
        let joined: i32 = a | b;
        assert(0 <= joined <= 7) by (bit_vector)
            requires
                joined == a | b,
                0 <= a <= 7i32,
                0 <= b <= 7i32,
        ;
        SceneFlags { bits: joined }
    }

    /// Whether every flag of `other` is in this set.
    #[verifier::when_used_as_spec(spec_contains)]
    pub fn contains(&self, other: SceneFlags) -> (b: bool)
        ensures
            b == self.spec_contains(other),
    {
        self.bits & other.bits == other.bits
    }
}

impl core::ops::BitOr for SceneFlags {
    type Output = SceneFlags;

    /// The set of the flags that are in either set.
    fn bitor(self, other: SceneFlags) -> (f: SceneFlags)
        ensures
            f@ == self@ | other@,
            f.valid(),
    {
        self.union(other)
    }
}

impl vstd::std_specs::ops::BitOrSpecImpl for SceneFlags {
    open spec fn obeys_bitor_spec() -> bool {
        true
    }

    open spec fn bitor_req(self, other: SceneFlags) -> bool {
        true
    }

    open spec fn bitor_spec(self, other: SceneFlags) -> SceneFlags {
        self.joined(other)
    }
}

/// A valid set of flags is read back from its own bits: what is set on the
/// engine and read from it again is the same set.
pub proof fn lemma_flags_round_trip(flags: SceneFlags)
    requires
        flags.valid(),
    ensures
        SceneFlags::truncated(flags@) == flags,
{
    let bits = flags@;
    assert(bits & 7i32 == bits) by (bit_vector)
        requires
            0 <= bits <= 7i32,
    ;
    flags.lemma_known_by_bits(flags);
}

/// One call to be made on the engine's scene object.
#[derive(Debug, Clone, Copy, PartialEq, Eq, Structural)]
pub enum SceneCommand {
    SetBuildQuality(BuildQuality),
    /// Set the scene's flags to the given bits.
    SetFlags(i32),
    Commit,
}

/// Opaque handle of a scene object inside the engine.
#[derive(Debug, Clone, Copy, PartialEq, Eq, Structural)]
pub struct SceneHandle {
    raw: usize,
}

impl SceneHandle {
    /// The engine's handle value.
    pub closed spec fn raw(&self) -> usize {
        self.raw
    }

    /// Wraps the handle that the engine returned for a new scene.
    pub fn new(raw: usize) -> (h: SceneHandle)
        ensures
            h.raw() == raw,
    {
        SceneHandle { raw }
    }

    /// The engine's handle value.
    pub fn as_raw(&self) -> (raw: usize)
        ensures
            raw == self.raw(),
    {
        self.raw
    }
}

/// `vec_map::VecMap`, a map from small integers to values, kept opaque.
#[verifier::external_type_specification]
#[verifier::external_body]
#[verifier::reject_recursive_types(V)]
pub struct ExVecMap<V>(VecMap<V>);

/// The geometries that a map holds, each under its key.
pub uninterp spec fn held_geometries(map: VecMap<Geometry>) -> Map<int, Geometry>;

/// Calls `VecMap::new`: the map it returns holds nothing.
#[verifier::external_body]
fn geometries_new() -> (map: VecMap<Geometry>)
    ensures
        held_geometries(map) == (Map::<int, Geometry>::empty()),
{
    VecMap::new()
}

/// Calls `VecMap::contains_key`: whether the map holds a value under `key`.
#[verifier::external_body]
fn geometries_contains_key(map: &VecMap<Geometry>, key: usize) -> (held: bool)
    ensures
        held == held_geometries(*map).dom().contains(key as int),
{
    map.contains_key(key)
}

/// Calls `VecMap::get`: the value under `key`, if the map holds one.
#[verifier::external_body]
fn geometries_get(map: &VecMap<Geometry>, key: usize) -> (found: Option<&Geometry>)
    ensures
        found is Some == held_geometries(*map).dom().contains(key as int),
        found matches Some(geometry) ==> *geometry == held_geometries(*map)[key as int],
{
    map.get(key)
}

/// Calls `VecMap::insert`: it puts `value` under `key`, leaves every other
/// key as it was, and returns what `key` held before, if anything. The map
/// grows to `key + 1` slots, so `key` must be below the largest `usize`.
#[verifier::external_body]
fn geometries_insert(map: &mut VecMap<Geometry>, key: usize, value: Geometry) -> (was: Option<
    Geometry,
>)
    requires
        key < usize::MAX,
    ensures
        held_geometries(*final(map)) == held_geometries(*old(map)).insert(key as int, value),
        was is Some == held_geometries(*old(map)).dom().contains(key as int),
        was matches Some(before) ==> before == held_geometries(*old(map))[key as int],
{
    map.insert(key, value)
}

/// How a ray is to be traced: no coherency hint, no filter, no instance.
#[derive(Debug, Clone, Copy, PartialEq, Eq, Structural)]
pub struct IntersectContext {
    pub flags: i32,
    /// Whether a filter function is installed.
    pub filter: bool,
    pub inst_id: u32,
}

/// The context of every query of this layer.
pub fn empty_intersect_context() -> (c: IntersectContext)
    ensures
        c == (IntersectContext { flags: 0, filter: false, inst_id: INVALID_ID }),
{
    IntersectContext { flags: 0, filter: false, inst_id: INVALID_ID }
}

/// A scene under construction: geometries can be attached and settings
/// changed until it is built.
pub struct SceneBuilder {
    handle: SceneHandle,
    geometries: VecMap<Geometry>,
}

/// A built scene: its geometries are frozen and it answers queries.
pub struct Scene {
    handle: SceneHandle,
    geometries: VecMap<Geometry>,
}

impl View for SceneBuilder {
    type V = Map<int, Geometry>;

    /// The attached geometries, each under the id it was attached with.
    closed spec fn view(&self) -> Map<int, Geometry> {
        held_geometries(self.geometries)
    }
}

impl View for Scene {
    type V = Map<int, Geometry>;

    /// The geometries of the scene, each under its id.
    closed spec fn view(&self) -> Map<int, Geometry> {
        held_geometries(self.geometries)
    }
}

impl SceneBuilder {
    pub closed spec fn handle_view(&self) -> SceneHandle {
        self.handle
    }

    /// Whether `after` is `before` with `geometry` attached under `id`.
    pub open spec fn attached(
        before: &SceneBuilder,
        after: &SceneBuilder,
        geometry: &Geometry,
        id: u32,
    ) -> bool {
        &&& after.handle_view() == before.handle_view()
        &&& after@.dom() == before@.dom().insert(id as int)
        &&& after@[id as int].stamped_from(geometry, id)
        &&& forall|k: int| before@.dom().contains(k) && k != id ==> after@[k] == before@[k]
    }

    /// An empty builder around the handle `raw_scene` that the engine
    /// returned for a new scene.
    pub fn new(raw_scene: usize) -> (b: SceneBuilder)
        ensures
            b.handle_view().raw() == raw_scene,
            b@ == (Map::<int, Geometry>::empty()),
    {
        SceneBuilder { handle: SceneHandle::new(raw_scene), geometries: geometries_new() }
    }

    /// The handle of the engine object behind this builder.
    pub fn handle(&self) -> (h: SceneHandle)
        ensures
            h == self.handle_view(),
    {
        self.handle
    }

    /// Whether a geometry is attached under `id`.
    pub fn is_attached(&self, id: u32) -> (held: bool)
        ensures
            held == self@.dom().contains(id as int),
    {
        geometries_contains_key(&self.geometries, id as usize)
    }

    /// Stores `geometry` under the id `id` that the engine assigned when
    /// the geometry was attached to its scene object, and returns that id.
    /// A user geometry gets the id stamped on every primitive record.
    ///
    /// The engine hands out each id once, and the sentinel only where
    /// attaching failed: either is the caller's to rule out, with
    /// [`Self::is_attached`] for the first.
    pub fn attach(&mut self, geometry: Geometry, id: u32) -> (assigned: GeomID)
        requires
            id != INVALID_ID,
            !old(self)@.dom().contains(id as int),
        ensures
            assigned@ == id,
            assigned@ != INVALID_ID,
            SceneBuilder::attached(old(self), final(self), &geometry, id),
    {
        let mut stamped = geometry;
        stamped.set_geom_id(id);
        let _ = geometries_insert(&mut self.geometries, id as usize, stamped);
        GeomID::new(id)
    }

    /// The call that sets the build quality of the scene.
    pub fn set_build_quality(&mut self, quality: BuildQuality) -> (c: SceneCommand)
        ensures
            *final(self) == *old(self),
            c == SceneCommand::SetBuildQuality(quality),
    {
        SceneCommand::SetBuildQuality(quality)
    }

    /// The call that sets the flags of the scene to `flags`.
    pub fn set_flags(&mut self, flags: SceneFlags) -> (c: SceneCommand)
        ensures
            *final(self) == *old(self),
            c == SceneCommand::SetFlags(flags@),
    {
        SceneCommand::SetFlags(flags.bits())
    }

    /// Reads the flag bits `raw` that the engine holds for the scene.
    pub fn get_flags(&self, raw: i32) -> (flags: SceneFlags)
        ensures
            flags == SceneFlags::truncated(raw),
            flags@ == raw & SCENE_FLAG_ALL,
            flags.valid(),
    {
        SceneFlags::from_bits_truncate(raw)
    }

    /// Freezes the geometries: the scene that answers queries, and the call
    /// that makes the engine build its acceleration structure.
    pub fn build(self) -> (r: (Scene, SceneCommand))
        ensures
            r.0@ == self@,
            r.0.handle_view() == self.handle_view(),
            r.1 == SceneCommand::Commit,
    {
        (Scene { handle: self.handle, geometries: self.geometries }, SceneCommand::Commit)
    }
}

impl Scene {
    pub closed spec fn handle_view(&self) -> SceneHandle {
        self.handle
    }

    /// The ray and hit that start an intersection query with `ray`: the ray
    /// as it is and a miss.
    pub open spec fn query(ray: Ray) -> RayHit {
        RayHit {
            ray,
            hit: Hit::of_wire(
                seq![0u32, 0u32, 0u32, 0u32, 0u32, INVALID_ID, INVALID_ID, INVALID_ID],
                ray.tfar,
            ),
        }
    }

    /// Whether a ray in wire form carries the engine's mark of an occluded
    /// ray: a far bound of negative infinity.
    pub open spec fn marked_occluded(reply: Seq<u32>) -> bool {
        reply[8] == NEG_INFINITY_BITS
    }

    /// The handle of the engine object behind this scene.
    pub fn handle(&self) -> (h: SceneHandle)
        ensures
            h == self.handle_view(),
    {
        self.handle
    }

    /// The geometry with the id `id`, if the scene has one: what the
    /// engine's callbacks for that geometry work on.
    pub fn geometry(&self, id: GeomID) -> (found: Option<&Geometry>)
        ensures
            found is Some == self@.dom().contains(id@ as int),
            found matches Some(geometry) ==> *geometry == self@[id@ as int],
    {
        geometries_get(&self.geometries, id.raw() as usize)
    }

    /// Reads the box `raw` that the engine reported around the whole scene.
    pub fn bounds(&self, raw: &[u32; 8]) -> (b: Bounds)
        ensures
            b == AABB::of_wire(raw@),
            b.wire() == raw@,
    {
        AABB::from_wire(raw)
    }

    /// What is handed to the engine to trace `ray` to its nearest
    /// intersection: the context, and the ray with a miss behind it.
    pub fn intersect_query(&self, ray: &Ray) -> (q: (IntersectContext, [u32; 20]))
        ensures
            q.0 == (IntersectContext { flags: 0, filter: false, inst_id: INVALID_ID }),
            q.1@ == Scene::query(*ray).wire(),
    {
        let rayhit = RayHit { ray: *ray, hit: Hit::empty() };
        proof {
            assert(rayhit.hit.wire() =~= Scene::query(*ray).hit.wire());
        }
        (empty_intersect_context(), rayhit.to_wire())
    }

    /// Reads what the engine left of an intersection query: the hit, with
    /// the far bound of the ray as its distance, or a miss.
    pub fn intersect(&self, reply: &[u32; 20]) -> (hit: Hit)
        ensures
            hit == RayHit::of_wire(reply@).hit,
            hit.well_formed(),
            hit.spec_is_hit() <==> reply@[17] != INVALID_ID,
    {
        let rayhit = RayHit::from_wire(reply);
        proof {
            assert(reply@.subrange(12, 20)[5] == reply@[17]);
        }
        rayhit.hit
    }

    /// What is handed to the engine to find out whether anything lies in
    /// the way of `ray`: the context, and the ray.
    pub fn occluded_query(&self, ray: &Ray) -> (q: (IntersectContext, [u32; 12]))
        ensures
            q.0 == (IntersectContext { flags: 0, filter: false, inst_id: INVALID_ID }),
            q.1@ == ray.wire(),
    {
        (empty_intersect_context(), ray.to_wire())
    }

    /// Reads what the engine left of an occlusion query: whether it marked
    /// the ray as occluded.
    pub fn occluded(&self, reply: &[u32; 12]) -> (hidden: bool)
        ensures
            hidden == Scene::marked_occluded(reply@),
    {
        let ray = Ray::from_wire(reply);
        ray.tfar == FloatBits::neg_infinity()
    }

    /// Reopens the scene: a builder seeded with its geometries.
    pub fn edit(self) -> (b: SceneBuilder)
        ensures
            b@ == self@,
            b.handle_view() == self.handle_view(),
    {
        SceneBuilder { handle: self.handle, geometries: self.geometries }
    }
}

/// An id that a builder hands out is never the sentinel, and two attaches
/// to one builder never hand out the same id: whatever was attached first
/// is still there when the second id is asked for.
pub proof fn lemma_attach_ids_distinct(
    start: SceneBuilder,
    middle: SceneBuilder,
    first: Geometry,
    first_id: u32,
    second_id: u32,
)
    requires
        first_id != INVALID_ID,
        !start@.dom().contains(first_id as int),
        SceneBuilder::attached(&start, &middle, &first, first_id),
        second_id != INVALID_ID,
        !middle@.dom().contains(second_id as int),
    ensures
        first_id != second_id,
        (GeomID { id: first_id }) != (GeomID { id: second_id }),
        !(GeomID { id: first_id }).spec_is_invalid(),
        !(GeomID { id: second_id }).spec_is_invalid(),
{
}

/// A query that the engine leaves as it was handed over reads as a miss.
pub proof fn lemma_untouched_query_is_miss(ray: Ray)
    ensures
        !RayHit::of_wire(Scene::query(ray).wire()).hit.spec_is_hit(),
        RayHit::of_wire(Scene::query(ray).wire()).hit.t is None,
        RayHit::of_wire(Scene::query(ray).wire()).hit.geom_id@ == INVALID_ID,
{
    let w = Scene::query(ray).wire();
    assert(w.subrange(12, 20) =~= Scene::query(ray).hit.wire());
}

/// A valid ray that the engine leaves as it was handed over is not
/// occluded, and one whose far bound the engine set to negative infinity
/// is.
pub proof fn lemma_occlusion_mark(ray: Ray)
    requires
        ray.valid(),
    ensures
        !Scene::marked_occluded(ray.wire()),
        Scene::marked_occluded((Ray { tfar: FloatBits { bits: NEG_INFINITY_BITS }, ..ray }).wire()),
{
}

} // verus!
