//! Rays, hits and their wire forms.
use vstd::prelude::*;
use crate::common::{GeomID, INVALID_ID};
use crate::float_bits::FloatBits;
use crate::vector::{Point3, Vector2, Vector3};

verus! {

/// Alignment in bytes that the engine asks of a ray, of a hit, of both
/// together and of a bounding box.
pub const WIRE_ALIGNMENT: usize = 16;

/// Size in bytes of a ray in wire form.
pub const RAY_WIRE_SIZE: usize = 48;

pub const RAY_OFFSET_ORIGIN: usize = 0;

pub const RAY_OFFSET_TNEAR: usize = 12;

pub const RAY_OFFSET_DIR: usize = 16;

pub const RAY_OFFSET_TIME: usize = 28;

pub const RAY_OFFSET_TFAR: usize = 32;

pub const RAY_OFFSET_MASK: usize = 36;

pub const RAY_OFFSET_ID: usize = 40;

pub const RAY_OFFSET_FLAGS: usize = 44;

/// Size in bytes of a hit in wire form.
pub const HIT_WIRE_SIZE: usize = 32;

pub const HIT_OFFSET_NG: usize = 0;

pub const HIT_OFFSET_U: usize = 12;

pub const HIT_OFFSET_V: usize = 16;

pub const HIT_OFFSET_GEOM_ID: usize = 20;

pub const HIT_OFFSET_PRIM_ID: usize = 24;

pub const HIT_OFFSET_INST_ID: usize = 28;

/// Size in bytes of a ray followed by a hit in wire form.
pub const RAY_HIT_WIRE_SIZE: usize = 80;

/// A ray: the points `origin + t * dir` for `tnear < t < tfar`.
#[derive(Debug, Clone, Copy)]
pub struct Ray {
    pub origin: Point3,
    pub tnear: FloatBits,
    pub dir: Vector3,
    pub time: FloatBits,
    pub tfar: FloatBits,
    pub mask: u32,
    pub id: u32,
    pub flags: u32,
}

impl Ray {
    /// The invariant of a ray: `0 <= tnear < tfar`.
    pub open spec fn valid(self) -> bool {
        (FloatBits { bits: 0 }).less_eq(self.tnear) && self.tnear.less(self.tfar)
    }

    /// Whether `t` lies strictly between the two bounds of the ray.
    pub open spec fn spec_in_range(&self, t: FloatBits) -> bool {
        self.tnear.less(t) && t.less(self.tfar)
    }

    /// The wire form: twelve 32-bit words, word `i` at byte offset `4 * i`.
    pub open spec fn wire(self) -> Seq<u32> {
        seq![
            self.origin.x.bits,
            self.origin.y.bits,
            self.origin.z.bits,
            self.tnear.bits,
            self.dir.x.bits,
            self.dir.y.bits,
            self.dir.z.bits,
            self.time.bits,
            self.tfar.bits,
            self.mask,
            self.id,
            self.flags,
        ]
    }

    /// The ray that twelve words in wire form stand for.
    pub open spec fn of_wire(w: Seq<u32>) -> Ray {
        Ray {
            origin: Point3 {
                x: FloatBits { bits: w[0] },
                y: FloatBits { bits: w[1] },
                z: FloatBits { bits: w[2] },
            },
            tnear: FloatBits { bits: w[3] },
            dir: Vector3 {
                x: FloatBits { bits: w[4] },
                y: FloatBits { bits: w[5] },
                z: FloatBits { bits: w[6] },
            },
            time: FloatBits { bits: w[7] },
            tfar: FloatBits { bits: w[8] },
            mask: w[9],
            id: w[10],
            flags: w[11],
        }
    }

    /// A ray at time zero that every geometry is visible to.
    pub fn new(origin: Point3, dir: Vector3, tnear: FloatBits, tfar: FloatBits) -> (r: Ray)
        requires
            (FloatBits { bits: 0 }).less_eq(tnear),
            tnear.less(tfar),
        ensures
            r == (Ray {
                origin,
                tnear,
                dir,
                time: FloatBits { bits: 0 },
                tfar,
                mask: 0xffff_ffff,
                id: 0,
                flags: 0,
            }),
            r.valid(),
    {
        Ray {
            origin,
            tnear,
            dir,
            time: FloatBits::zero(),
            tfar,
            mask: 0xffff_ffff,
            id: 0,
            flags: 0,
        }
    }

    /// Whether `t` lies strictly between the two bounds of the ray.
    #[verifier::when_used_as_spec(spec_in_range)]
    pub fn in_range(&self, t: FloatBits) -> (b: bool)
        ensures
            b == self.spec_in_range(t),
    {
        t > self.tnear && t < self.tfar
    }

    /// Lays the ray out as the engine reads it.
    pub fn to_wire(&self) -> (w: [u32; 12])
        ensures
            w@ == self.wire(),
    {
        [
            self.origin.x.bits,
            self.origin.y.bits,
            self.origin.z.bits,
            self.tnear.bits,
            self.dir.x.bits,
            self.dir.y.bits,
            self.dir.z.bits,
            self.time.bits,
            self.tfar.bits,
            self.mask,
            self.id,
            self.flags,
        ]
    }

    /// Reads a ray as the engine wrote it.
    pub fn from_wire(w: &[u32; 12]) -> (r: Ray)
        ensures
            r == Ray::of_wire(w@),
            r.wire() == w@,
    {
        let r = Ray {
            origin: Point3 {
                x: FloatBits { bits: w[0] },
                y: FloatBits { bits: w[1] },
                z: FloatBits { bits: w[2] },
            },
            tnear: FloatBits { bits: w[3] },
            dir: Vector3 {
                x: FloatBits { bits: w[4] },
                y: FloatBits { bits: w[5] },
                z: FloatBits { bits: w[6] },
            },
            time: FloatBits { bits: w[7] },
            tfar: FloatBits { bits: w[8] },
            mask: w[9],
            id: w[10],
            flags: w[11],
        };
        assert(r.wire() =~= w@);
        r
    }
}

/// What a ray met: the surface normal and parameters at the nearest
/// intersection, the ids that name it, and its distance along the ray.
/// A hit whose `geom_id` is the sentinel is a miss and has no distance.
#[derive(Debug, Clone, Copy)]
pub struct Hit {
    pub Ng: Vector3,
    pub uv: Vector2,
    pub geom_id: GeomID,
    pub prim_id: GeomID,
    pub inst_id: GeomID,
    pub t: Option<FloatBits>,
}

impl Hit {
    pub open spec fn spec_is_hit(&self) -> bool {
        self.geom_id@ != INVALID_ID
    }

    /// A hit carries a distance exactly when it is one.
    pub open spec fn well_formed(self) -> bool {
        self.t is Some <==> self.spec_is_hit()
    }

    /// The wire form: eight 32-bit words, word `i` at byte offset `4 * i`.
    /// The distance is no part of it: the engine keeps it in the ray.
    pub open spec fn wire(self) -> Seq<u32> {
        seq![
            self.Ng.x.bits,
            self.Ng.y.bits,
            self.Ng.z.bits,
            self.uv.x.bits,
            self.uv.y.bits,
            self.geom_id@,
            self.prim_id@,
            self.inst_id@,
        ]
    }

    /// The hit that eight words in wire form stand for, on a ray whose far
    /// bound is `tfar`: where the words name a geometry, the engine has
    /// moved the far bound to the distance of the hit.
    pub open spec fn of_wire(w: Seq<u32>, tfar: FloatBits) -> Hit {
        Hit {
            Ng: Vector3 {
                x: FloatBits { bits: w[0] },
                y: FloatBits { bits: w[1] },
                z: FloatBits { bits: w[2] },
            },
            uv: Vector2 { x: FloatBits { bits: w[3] }, y: FloatBits { bits: w[4] } },
            geom_id: GeomID { id: w[5] },
            prim_id: GeomID { id: w[6] },
            inst_id: GeomID { id: w[7] },
            t: if w[5] != INVALID_ID {
                Some(tfar)
            } else {
                None
            },
        }
    }

    /// The miss: zero normal and parameters, every id the sentinel.
    pub fn empty() -> (h: Hit)
        ensures
            h.wire() == seq![0u32, 0u32, 0u32, 0u32, 0u32, INVALID_ID, INVALID_ID, INVALID_ID],
            h.t is None,
            !h.spec_is_hit(),
            h.well_formed(),
    {
        Hit {
            Ng: Vector3::zero(),
            uv: Vector2::zero(),
            geom_id: GeomID::invalid(),
            prim_id: GeomID::invalid(),
            inst_id: GeomID::invalid(),
            t: None,
        }
    }

    /// Whether the ray met a geometry.
    #[verifier::when_used_as_spec(spec_is_hit)]
    pub fn is_hit(&self) -> (b: bool)
        ensures
            b == self.spec_is_hit(),
    {
        !self.geom_id.is_invalid()
    }

    /// Lays the hit out as the engine reads it.
    pub fn to_wire(&self) -> (w: [u32; 8])
        ensures
            w@ == self.wire(),
    {
        [
            self.Ng.x.bits,
            self.Ng.y.bits,
            self.Ng.z.bits,
            self.uv.x.bits,
            self.uv.y.bits,
            self.geom_id.raw(),
            self.prim_id.raw(),
            self.inst_id.raw(),
        ]
    }

    /// Reads a hit as the engine wrote it, on a ray whose far bound is `tfar`.
    pub fn from_wire(w: &[u32; 8], tfar: FloatBits) -> (h: Hit)
        ensures
            h == Hit::of_wire(w@, tfar),
            h.wire() == w@,
            h.well_formed(),
    {
        let h = Hit {
            Ng: Vector3 {
                x: FloatBits { bits: w[0] },
                y: FloatBits { bits: w[1] },
                z: FloatBits { bits: w[2] },
            },
            uv: Vector2 { x: FloatBits { bits: w[3] }, y: FloatBits { bits: w[4] } },
            geom_id: GeomID::new(w[5]),
            prim_id: GeomID::new(w[6]),
            inst_id: GeomID::new(w[7]),
            t: if w[5] != INVALID_ID {
                Some(tfar)
            } else {
                None
            },
        };
        assert(h.wire() =~= w@);
        h
    }
}

/// A ray and what it met, as the engine takes and returns them in one call.
#[derive(Debug, Clone, Copy)]
pub struct RayHit {
    pub ray: Ray,
    pub hit: Hit,
}

impl RayHit {
    /// The hit is well formed and its distance, if any, is the ray's far
    /// bound.
    pub open spec fn well_formed(self) -> bool {
        &&& self.hit.well_formed()
        &&& self.hit.t is Some ==> self.hit.t == Some(self.ray.tfar)
    }

    /// The wire form: the ray's twelve words, then the hit's eight.
    pub open spec fn wire(self) -> Seq<u32> {
        self.ray.wire() + self.hit.wire()
    }

    /// The ray and hit that twenty words in wire form stand for.
    pub open spec fn of_wire(w: Seq<u32>) -> RayHit {
        let ray = Ray::of_wire(w.subrange(0, 12));
        RayHit { ray, hit: Hit::of_wire(w.subrange(12, 20), ray.tfar) }
    }

    /// Lays both out as the engine reads them.
    pub fn to_wire(&self) -> (w: [u32; 20])
        ensures
            w@ == self.wire(),
    {
        let w = [
            self.ray.origin.x.bits,
            self.ray.origin.y.bits,
            self.ray.origin.z.bits,
            self.ray.tnear.bits,
            self.ray.dir.x.bits,
            self.ray.dir.y.bits,
            self.ray.dir.z.bits,
            self.ray.time.bits,
            self.ray.tfar.bits,
            self.ray.mask,
            self.ray.id,
            self.ray.flags,
            self.hit.Ng.x.bits,
            self.hit.Ng.y.bits,
            self.hit.Ng.z.bits,
            self.hit.uv.x.bits,
            self.hit.uv.y.bits,
            self.hit.geom_id.raw(),
            self.hit.prim_id.raw(),
            self.hit.inst_id.raw(),
        ];
        assert(w@ =~= self.wire());
        w
    }

    /// Reads both as the engine wrote them.
    pub fn from_wire(w: &[u32; 20]) -> (rh: RayHit)
        ensures
            rh == RayHit::of_wire(w@),
            rh.wire() == w@,
            rh.well_formed(),
    {
        let ray_words: [u32; 12] = [
            w[0],
            w[1],
            w[2],
            w[3],
            w[4],
            w[5],
            w[6],
            w[7],
            w[8],
            w[9],
            w[10],
            w[11],
        ];
        let hit_words: [u32; 8] = [w[12], w[13], w[14], w[15], w[16], w[17], w[18], w[19]];
        assert(ray_words@ =~= w@.subrange(0, 12));
        assert(hit_words@ =~= w@.subrange(12, 20));
        let ray = Ray::from_wire(&ray_words);
        let hit = Hit::from_wire(&hit_words, ray.tfar);
        let rh = RayHit { ray, hit };
        assert(rh.wire() =~= w@);
        rh
    }
}

/// Twelve words read as a ray and laid out again are the same words, and a
/// ray laid out and read back is the same ray.
pub proof fn lemma_ray_round_trip(r: Ray, w: Seq<u32>)
    requires
        w.len() == 12,
    ensures
        Ray::of_wire(r.wire()) == r,
        Ray::of_wire(w).wire() == w,
{
    assert(Ray::of_wire(w).wire() =~= w);
}

/// A well-formed ray and hit laid out and read back are the same, and twenty
/// words read and laid out again are the same words.
pub proof fn lemma_ray_hit_round_trip(rh: RayHit, w: Seq<u32>)
    requires
        rh.well_formed(),
        w.len() == 20,
    ensures
        RayHit::of_wire(rh.wire()) == rh,
        RayHit::of_wire(w).wire() == w,
{
    assert(rh.wire().subrange(0, 12) =~= rh.ray.wire());
    assert(rh.wire().subrange(12, 20) =~= rh.hit.wire());
    assert(RayHit::of_wire(w).wire() =~= w);
}

/// The wire form of a ray is as large as the engine's, a multiple of the
/// alignment, and each field lies at its byte offset.
pub proof fn lemma_ray_layout(r: Ray)
    ensures
        r.wire().len() * 4 == RAY_WIRE_SIZE,
        RAY_WIRE_SIZE % WIRE_ALIGNMENT == 0,
        r.wire()[RAY_OFFSET_ORIGIN as int / 4] == r.origin.x.bits,
        r.wire()[RAY_OFFSET_ORIGIN as int / 4 + 1] == r.origin.y.bits,
        r.wire()[RAY_OFFSET_ORIGIN as int / 4 + 2] == r.origin.z.bits,
        r.wire()[RAY_OFFSET_TNEAR as int / 4] == r.tnear.bits,
        r.wire()[RAY_OFFSET_DIR as int / 4] == r.dir.x.bits,
        r.wire()[RAY_OFFSET_DIR as int / 4 + 1] == r.dir.y.bits,
        r.wire()[RAY_OFFSET_DIR as int / 4 + 2] == r.dir.z.bits,
        r.wire()[RAY_OFFSET_TIME as int / 4] == r.time.bits,
        r.wire()[RAY_OFFSET_TFAR as int / 4] == r.tfar.bits,
        r.wire()[RAY_OFFSET_MASK as int / 4] == r.mask,
        r.wire()[RAY_OFFSET_ID as int / 4] == r.id,
        r.wire()[RAY_OFFSET_FLAGS as int / 4] == r.flags,
{
}

/// The wire form of a hit is as large as the engine's, a multiple of the
/// alignment, and each field lies at its byte offset.
pub proof fn lemma_hit_layout(h: Hit)
    ensures
        h.wire().len() * 4 == HIT_WIRE_SIZE,
        HIT_WIRE_SIZE % WIRE_ALIGNMENT == 0,
        h.wire()[HIT_OFFSET_NG as int / 4] == h.Ng.x.bits,
        h.wire()[HIT_OFFSET_NG as int / 4 + 1] == h.Ng.y.bits,
        h.wire()[HIT_OFFSET_NG as int / 4 + 2] == h.Ng.z.bits,
        h.wire()[HIT_OFFSET_U as int / 4] == h.uv.x.bits,
        h.wire()[HIT_OFFSET_V as int / 4] == h.uv.y.bits,
        h.wire()[HIT_OFFSET_GEOM_ID as int / 4] == h.geom_id@,
        h.wire()[HIT_OFFSET_PRIM_ID as int / 4] == h.prim_id@,
        h.wire()[HIT_OFFSET_INST_ID as int / 4] == h.inst_id@,
{
}

/// In the wire form of a ray and a hit the hit starts where the ray ends,
/// and the whole is a multiple of the alignment.
pub proof fn lemma_ray_hit_layout(rh: RayHit)
    ensures
        rh.wire().len() * 4 == RAY_HIT_WIRE_SIZE,
        RAY_HIT_WIRE_SIZE == RAY_WIRE_SIZE + HIT_WIRE_SIZE,
        RAY_HIT_WIRE_SIZE % WIRE_ALIGNMENT == 0,
        rh.wire().subrange(0, 12) == rh.ray.wire(),
        rh.wire().subrange(12, 20) == rh.hit.wire(),
{
    assert(rh.wire().subrange(0, 12) =~= rh.ray.wire());
    assert(rh.wire().subrange(12, 20) =~= rh.hit.wire());
}

} // verus!
