//! Procedural primitives supplied by the caller, and what the engine's
//! callbacks decide on their behalf.
use vstd::prelude::*;
use crate::aabb::Bounds;
use crate::common::{GeomID, INVALID_ID};
use crate::float_bits::{FloatBits, MIN_BITS};
use crate::geometry::{
    Committed, Geometry, GeometryCommand, GeometryHandle, GeometryInternal, GeometryType,
};
use crate::ray::{Hit, Ray, RayHit};
use crate::vector::{Vector2, Vector3};

verus! {

/// A primitive whose shape is given by code: it reports where a ray meets
/// it, if anywhere, and the box that encloses it.
pub trait UserPrimitive: 'static + Send + Sync {
    /// The nearest intersection with `ray` inside the ray's bounds, or
    /// [`UserPrimHit::miss`].
    fn intersect(&self, ray: &Ray) -> UserPrimHit;

    fn bounds(&self) -> Bounds;
}

/// What a primitive reports of one ray: the distance of the intersection,
/// the surface normal and the surface parameters there.
#[derive(Debug, Clone, Copy)]
pub struct UserPrimHit {
    pub t: FloatBits,
    pub Ng: Vector3,
    pub uv: Vector2,
}

impl UserPrimHit {
    /// The report of a miss: the smallest finite distance, which lies in no
    /// ray's bounds.
    pub open spec fn spec_miss() -> UserPrimHit {
        UserPrimHit {
            t: FloatBits { bits: MIN_BITS },
            Ng: Vector3 {
                x: FloatBits { bits: 0 },
                y: FloatBits { bits: 0 },
                z: FloatBits { bits: 0 },
            },
            uv: Vector2 { x: FloatBits { bits: 0 }, y: FloatBits { bits: 0 } },
        }
    }

    pub fn new(t: FloatBits, normal: Vector3, uv: Vector2) -> (h: UserPrimHit)
        ensures
            h == (UserPrimHit { t, Ng: normal, uv }),
    {
        UserPrimHit { t, Ng: normal, uv }
    }

    #[verifier::when_used_as_spec(spec_miss)]
    pub fn miss() -> (h: UserPrimHit)
        ensures
            h == UserPrimHit::spec_miss(),
    {
        UserPrimHit { t: FloatBits::min_value(), Ng: Vector3::zero(), uv: Vector2::zero() }
    }
}

/// The ray and hit after a primitive's report has been taken into account.
///
/// The report counts only if its distance lies strictly between the ray's
/// bounds, so that of two primitives at the same distance the one found
/// first stays. It then becomes the ray's far bound, and the hit takes the
/// reported normal and parameters and the three ids.
pub open spec fn hit_applied(
    rayhit: RayHit,
    prim_hit: UserPrimHit,
    prim_id: u32,
    geom_id: GeomID,
    inst_id: u32,
) -> RayHit {
    if rayhit.ray.spec_in_range(prim_hit.t) {
        RayHit {
            ray: Ray { tfar: prim_hit.t, ..rayhit.ray },
            hit: Hit {
                Ng: prim_hit.Ng,
                uv: prim_hit.uv,
                geom_id,
                prim_id: GeomID { id: prim_id },
                inst_id: GeomID { id: inst_id },
                t: if geom_id@ != INVALID_ID {
                    Some(prim_hit.t)
                } else {
                    None
                },
            },
        }
    } else {
        rayhit
    }
}

/// Takes a primitive's report into account: see [`hit_applied`].
pub fn apply_prim_hit(
    rayhit: &mut RayHit,
    prim_hit: UserPrimHit,
    prim_id: u32,
    geom_id: GeomID,
    inst_id: u32,
) -> (updated: bool)
    ensures
        *final(rayhit) == hit_applied(*old(rayhit), prim_hit, prim_id, geom_id, inst_id),
        updated == old(rayhit).ray.spec_in_range(prim_hit.t),
{
    if rayhit.ray.in_range(prim_hit.t) {
        rayhit.ray.tfar = prim_hit.t;
        rayhit.hit.Ng = prim_hit.Ng;
        rayhit.hit.uv = prim_hit.uv;
        rayhit.hit.prim_id = GeomID::new(prim_id);
        rayhit.hit.geom_id = geom_id;
        rayhit.hit.inst_id = GeomID::new(inst_id);
        rayhit.hit.t = if geom_id.is_invalid() {
            None
        } else {
            Some(prim_hit.t)
        };
        true
    } else {
        false
    }
}

/// A report of a miss leaves a valid ray and its hit untouched.
pub proof fn lemma_miss_leaves_untouched(
    rayhit: RayHit,
    prim_id: u32,
    geom_id: GeomID,
    inst_id: u32,
)
    requires
        rayhit.ray.valid(),
    ensures
        hit_applied(rayhit, UserPrimHit::spec_miss(), prim_id, geom_id, inst_id) == rayhit,
{
}

/// A report that counts brings the far bound of the ray strictly closer and
/// leaves the ray valid; one that does not count changes nothing.
pub proof fn lemma_applied_hit_shrinks_ray(
    rayhit: RayHit,
    prim_hit: UserPrimHit,
    prim_id: u32,
    geom_id: GeomID,
    inst_id: u32,
)
    requires
        rayhit.ray.valid(),
    ensures
        ({
            let after = hit_applied(rayhit, prim_hit, prim_id, geom_id, inst_id);
            &&& after.ray.valid()
            &&& after != rayhit ==> after.ray.tfar.less(rayhit.ray.tfar)
            &&& after != rayhit ==> after.hit.geom_id == geom_id && after.hit.prim_id@ == prim_id
                && after.hit.inst_id@ == inst_id
            &&& rayhit.well_formed() ==> after.well_formed()
        }),
{
}

/// One primitive together with the id of the geometry it belongs to.
pub struct UserRecord<T> {
    pub prim: T,
    /// The sentinel until the geometry is attached to a scene.
    pub geom_id: GeomID,
}

/// `n` copies of the identifier with raw id `id`.
pub open spec fn uniform_ids(n: nat, id: u32) -> Seq<GeomID> {
    Seq::new(n, |i: int| GeomID { id })
}

/// What a scene and the engine's callbacks need of a user geometry,
/// whatever the type of its primitives.
pub trait CallbackBridge {
    spec fn handle_view(&self) -> GeometryHandle;

    /// The geometry id held by each primitive record, in order.
    spec fn geom_ids(&self) -> Seq<GeomID>;

    fn handle(&self) -> (h: &GeometryHandle)
        ensures
            *h == self.handle_view(),
    ;

    fn primitive_count(&self) -> (n: usize)
        ensures
            n == self.geom_ids().len(),
    ;

    /// Stamps the id that a scene assigned on every primitive record.
    fn set_geom_id(&mut self, id: u32)
        ensures
            final(self).handle_view() == old(self).handle_view(),
            final(self).geom_ids() == uniform_ids(old(self).geom_ids().len(), id),
    ;

    /// The bounds callback: the box that primitive `prim_id` reports.
    fn bounds_func(&self, prim_id: u32) -> (b: Bounds)
        requires
            prim_id < self.geom_ids().len(),
    ;

    /// The intersect callback for a packet of `n` rays, of which this layer
    /// takes one: asks primitive `prim_id` where the ray meets it and takes
    /// the answer into account. A ray that the engine marks invalid
    /// (`valid == 0`) is passed over.
    fn intersect_func(&self, n: u32, valid: i32, prim_id: u32, inst_id: u32, rayhit: &mut RayHit)
        requires
            n == 1,
            prim_id < self.geom_ids().len(),
        ensures
            valid == 0 ==> *final(rayhit) == *old(rayhit),
            valid != 0 ==> exists|prim_hit: UserPrimHit| *final(rayhit) == #[trigger] hit_applied(
                *old(rayhit),
                prim_hit,
                prim_id,
                self.geom_ids()[prim_id as int],
                inst_id,
            ),
    ;
}

/// A user geometry whose primitive type has been forgotten, so that user
/// geometries of every type can live in one scene.
pub struct ErasedUserGeometry {
    pub object: Box<dyn CallbackBridge>,
}

/// A geometry made of procedural primitives of type `T`.
pub struct UserGeometry<T> {
    pub handle: GeometryHandle,
    pub prims: Vec<UserRecord<T>>,
}

impl<T: UserPrimitive> UserGeometry<T> {
    /// The primitives without their ids.
    pub open spec fn primitives(&self) -> Seq<T> {
        Seq::new(self.prims@.len(), |i: int| self.prims@[i].prim)
    }

    /// A geometry of the given primitives, not yet attached to any scene,
    /// around the handle `raw_handle` that the engine returned for a new
    /// geometry of kind [`GeometryType::User`].
    pub fn new(raw_handle: usize, prims: Vec<T>) -> (g: UserGeometry<T>)
        ensures
            g.handle.raw() == raw_handle,
            g.handle.kind() == GeometryType::User,
            g.primitives() == prims@,
            g.geom_ids() == uniform_ids(prims@.len(), INVALID_ID),
    {
        let ghost given = prims@;
        let mut records: Vec<UserRecord<T>> = Vec::new();
        for prim in it: prims.into_iter()
            invariant
                it.seq() == given,
                records@.len() == it.index(),
                forall|j: int|
                    0 <= j < records@.len() ==> (#[trigger] records@[j]).prim == given[j],
                forall|j: int|
                    0 <= j < records@.len() ==> (#[trigger] records@[j]).geom_id@ == INVALID_ID,
        {
            records.push(UserRecord { prim, geom_id: GeomID::invalid() });
        }
        let g = UserGeometry {
            handle: GeometryHandle::new(raw_handle, GeometryType::User),
            prims: records,
        };
        proof {
            assert(g.primitives() =~= given);
            assert(g.geom_ids() =~= uniform_ids(given.len(), INVALID_ID));
        }
        g
    }

    /// The calls that register the primitives and the three callbacks with
    /// the engine, in the order in which they are to be made.
    pub open spec fn registration(count: u32) -> Seq<GeometryCommand> {
        seq![
            GeometryCommand::SetUserPrimitiveCount(count),
            GeometryCommand::SetUserData,
            GeometryCommand::SetBoundsFunction,
            GeometryCommand::SetIntersectFunction,
            GeometryCommand::SetOccludedFunction,
        ]
    }

    /// Finishes the geometry: forgets the type of its primitives and lists
    /// the calls that register them and the callbacks with the engine, then
    /// the commit.
    pub fn build(self) -> (c: Committed)
        requires
            self.prims@.len() <= u32::MAX,
        ensures
            c.commands@ == Self::registration(self.prims@.len() as u32).push(
                GeometryCommand::Commit,
            ),
            c.geometry.internal matches GeometryInternal::User(u) && u.object.handle_view()
                == self.handle && u.object.geom_ids() == self.geom_ids(),
    {
        let mut commands = self.bind_buffers();
        commands.push(self.handle.commit());
        let erased = ErasedUserGeometry { object: Box::new(self) };
        assert(erased.object.handle_view() == self.handle);
        assert(erased.object.geom_ids() == self.geom_ids());
        Committed { geometry: Geometry::new(GeometryInternal::User(erased)), commands }
    }

    /// Lists the calls of [`Self::registration`] for this geometry.
    pub fn bind_buffers(&self) -> (commands: Vec<GeometryCommand>)
        requires
            self.prims@.len() <= u32::MAX,
        ensures
            commands@ == Self::registration(self.prims@.len() as u32),
    {
        let count: u32 = self.prims.len() as u32;
        let mut commands: Vec<GeometryCommand> = Vec::new();
        commands.push(GeometryCommand::SetUserPrimitiveCount(count));
        commands.push(GeometryCommand::SetUserData);
        commands.push(GeometryCommand::SetBoundsFunction);
        commands.push(GeometryCommand::SetIntersectFunction);
        commands.push(GeometryCommand::SetOccludedFunction);
        assert(commands@ =~= Self::registration(count));
        commands
    }
}

impl<T: UserPrimitive> CallbackBridge for UserGeometry<T> {
    open spec fn handle_view(&self) -> GeometryHandle {
        self.handle
    }

    open spec fn geom_ids(&self) -> Seq<GeomID> {
        Seq::new(self.prims@.len(), |i: int| self.prims@[i].geom_id)
    }

    fn handle(&self) -> (h: &GeometryHandle) {
        &self.handle
    }

    fn primitive_count(&self) -> (n: usize) {
        self.prims.len()
    }

    fn set_geom_id(&mut self, id: u32)
        ensures
            final(self).primitives() == old(self).primitives(),
    {
        let n: usize = self.prims.len();
        let mut i: usize = 0;
        while i < n
            invariant
                i <= n,
                n == self.prims@.len(),
                self.handle == old(self).handle,
                self.primitives() == old(self).primitives(),
                forall|j: int| 0 <= j < i ==> (#[trigger] self.prims@[j]).geom_id@ == id,
            decreases n - i,
        {
            let ghost before = self.primitives();
            self.prims[i].geom_id = GeomID::new(id);
            assert(self.primitives() =~= before);
            i += 1;
        }
        assert(self.geom_ids() =~= uniform_ids(old(self).geom_ids().len(), id));
    }

    /// The box is one that the `bounds` of primitive `prim_id` returns for
    /// that primitive.
    fn bounds_func(&self, prim_id: u32) -> (b: Bounds)
        ensures
            call_ensures(T::bounds, (&self.primitives()[prim_id as int],), b),
    {
        self.prims[prim_id as usize].prim.bounds()
    }

    /// A valid ray is handed, as it stands, to the `intersect` of primitive
    /// `prim_id`, and what that returns is taken into account.
    fn intersect_func(&self, n: u32, valid: i32, prim_id: u32, inst_id: u32, rayhit: &mut RayHit)
        ensures
            valid != 0 ==> exists|prim_hit: UserPrimHit|
                call_ensures(
                    T::intersect,
                    (&self.primitives()[prim_id as int], &old(rayhit).ray),
                    prim_hit,
                ) && *final(rayhit) == #[trigger] hit_applied(
                    *old(rayhit),
                    prim_hit,
                    prim_id,
                    self.geom_ids()[prim_id as int],
                    inst_id,
                ),
    {
        if valid == 0 {
            return ;
        }
        let record = &self.prims[prim_id as usize];
        let prim_hit = record.prim.intersect(&rayhit.ray);
        let _ = apply_prim_hit(rayhit, prim_hit, prim_id, record.geom_id, inst_id);
        assert(record.prim == self.primitives()[prim_id as int]);
        assert(record.geom_id == self.geom_ids()[prim_id as int]);
        assert(*rayhit == hit_applied(
            *old(rayhit),
            prim_hit,
            prim_id,
            self.geom_ids()[prim_id as int],
            inst_id,
        ));
    }
}

} // verus!
