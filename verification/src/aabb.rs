//! Axis-aligned bounding boxes and their wire form.
use vstd::prelude::*;
use crate::float_bits::FloatBits;
use crate::ray::WIRE_ALIGNMENT;
use crate::vector::Point3;

verus! {

/// Size in bytes of a box in wire form. The engine reads a box 16 bytes at
/// a time, so it asks [`WIRE_ALIGNMENT`] of it, of which the size is a
/// multiple.
pub const BOUNDS_WIRE_SIZE: usize = 32;

/// Byte offset of the lower corner in wire form.
pub const BOUNDS_OFFSET_LOWER: usize = 0;

/// Byte offset of the first padding word in wire form.
pub const BOUNDS_OFFSET_ALIGN0: usize = 12;

/// Byte offset of the upper corner in wire form.
pub const BOUNDS_OFFSET_UPPER: usize = 16;

/// Byte offset of the second padding word in wire form.
pub const BOUNDS_OFFSET_ALIGN1: usize = 28;

/// An axis-aligned box. The two padding words belong to the wire form, which
/// the engine reads 16 bytes at a time; they are carried along unchanged.
#[derive(Debug, Clone, Copy)]
pub struct AABB {
    pub lower: Point3,
    pub align0: FloatBits,
    pub upper: Point3,
    pub align1: FloatBits,
}

/// The name under which user primitives report their extent.
pub type Bounds = AABB;

impl AABB {
    /// The wire form: eight 32-bit words, word `i` at byte offset `4 * i`.
    pub open spec fn wire(self) -> Seq<u32> {
        seq![
            self.lower.x.bits,
            self.lower.y.bits,
            self.lower.z.bits,
            self.align0.bits,
            self.upper.x.bits,
            self.upper.y.bits,
            self.upper.z.bits,
            self.align1.bits,
        ]
    }

    /// The box that eight words in wire form stand for.
    pub open spec fn of_wire(w: Seq<u32>) -> AABB {
        AABB {
            lower: Point3 {
                x: FloatBits { bits: w[0] },
                y: FloatBits { bits: w[1] },
                z: FloatBits { bits: w[2] },
            },
            align0: FloatBits { bits: w[3] },
            upper: Point3 {
                x: FloatBits { bits: w[4] },
                y: FloatBits { bits: w[5] },
                z: FloatBits { bits: w[6] },
            },
            align1: FloatBits { bits: w[7] },
        }
    }

    /// The box whose corners are both the origin.
    pub fn zero() -> (b: AABB)
        ensures
            b.wire() == seq![0u32, 0u32, 0u32, 0u32, 0u32, 0u32, 0u32, 0u32],
    {
        AABB {
            lower: Point3::origin(),
            align0: FloatBits::zero(),
            upper: Point3::origin(),
            align1: FloatBits::zero(),
        }
    }

    /// The box between two corners, with zeroed padding.
    pub fn new(lower: Point3, upper: Point3) -> (b: AABB)
        ensures
            b.lower == lower,
            b.upper == upper,
            b.align0.bits == 0,
            b.align1.bits == 0,
    {
        AABB { lower, align0: FloatBits::zero(), upper, align1: FloatBits::zero() }
    }

    /// Lays the box out as the engine reads it.
    pub fn to_wire(&self) -> (w: [u32; 8])
        ensures
            w@ == self.wire(),
    {
        [
            self.lower.x.bits,
            self.lower.y.bits,
            self.lower.z.bits,
            self.align0.bits,
            self.upper.x.bits,
            self.upper.y.bits,
            self.upper.z.bits,
            self.align1.bits,
        ]
    }

    /// Reads a box as the engine wrote it.
    pub fn from_wire(w: &[u32; 8]) -> (b: AABB)
        ensures
            b == AABB::of_wire(w@),
            b.wire() == w@,
    {
        let b = AABB {
            lower: Point3 {
                x: FloatBits { bits: w[0] },
                y: FloatBits { bits: w[1] },
                z: FloatBits { bits: w[2] },
            },
            align0: FloatBits { bits: w[3] },
            upper: Point3 {
                x: FloatBits { bits: w[4] },
                y: FloatBits { bits: w[5] },
                z: FloatBits { bits: w[6] },
            },
            align1: FloatBits { bits: w[7] },
        };
        assert(b.wire() =~= w@);
        b
    }
}

impl From<[u32; 8]> for AABB {
    /// Reads a box as the engine wrote it.
    fn from(w: [u32; 8]) -> (b: AABB) {
        AABB::from_wire(&w)
    }
}

impl vstd::std_specs::convert::FromSpecImpl<[u32; 8]> for AABB {
    open spec fn obeys_from_spec() -> bool {
        true
    }

    open spec fn from_spec(w: [u32; 8]) -> AABB {
        AABB::of_wire(w@)
    }
}

impl From<AABB> for [u32; 8] {
    /// Lays a box out as the engine reads it.
    fn from(b: AABB) -> (w: [u32; 8]) {
        b.to_wire()
    }
}

impl vstd::std_specs::convert::FromSpecImpl<AABB> for [u32; 8] {
    open spec fn obeys_from_spec() -> bool {
        true
    }

    open spec fn from_spec(b: AABB) -> [u32; 8] {
        [
            b.lower.x.bits,
            b.lower.y.bits,
            b.lower.z.bits,
            b.align0.bits,
            b.upper.x.bits,
            b.upper.y.bits,
            b.upper.z.bits,
            b.align1.bits,
        ]
    }
}

/// A box laid out and read back is the same box, bit for bit, whatever its
/// components are: by `wire` and `of_wire`, and so by the two conversions
/// between a box and its eight words.
pub proof fn lemma_bounds_round_trip(b: AABB)
    ensures
        AABB::of_wire(b.wire()) == b,
        <[u32; 8] as vstd::std_specs::convert::FromSpec<AABB>>::from_spec(b)@ == b.wire(),
        <AABB as vstd::std_specs::convert::FromSpec<[u32; 8]>>::from_spec(
            <[u32; 8] as vstd::std_specs::convert::FromSpec<AABB>>::from_spec(b),
        ) == b,
{
    let w = <[u32; 8] as vstd::std_specs::convert::FromSpec<AABB>>::from_spec(b);
    assert(w@ =~= b.wire());
}

/// Eight words read as a box and laid out again are the same words.
pub proof fn lemma_bounds_wire_round_trip(w: Seq<u32>)
    requires
        w.len() == 8,
    ensures
        AABB::of_wire(w).wire() == w,
{
    assert(AABB::of_wire(w).wire() =~= w);
}

/// The wire form of a box is as large as the engine's, a multiple of the
/// alignment, and each field lies at its byte offset.
pub proof fn lemma_bounds_layout(b: AABB)
    ensures
        b.wire().len() * 4 == BOUNDS_WIRE_SIZE,
        BOUNDS_WIRE_SIZE % WIRE_ALIGNMENT == 0,
        b.wire()[BOUNDS_OFFSET_LOWER as int / 4] == b.lower.x.bits,
        b.wire()[BOUNDS_OFFSET_LOWER as int / 4 + 1] == b.lower.y.bits,
        b.wire()[BOUNDS_OFFSET_LOWER as int / 4 + 2] == b.lower.z.bits,
        b.wire()[BOUNDS_OFFSET_ALIGN0 as int / 4] == b.align0.bits,
        b.wire()[BOUNDS_OFFSET_UPPER as int / 4] == b.upper.x.bits,
        b.wire()[BOUNDS_OFFSET_UPPER as int / 4 + 1] == b.upper.y.bits,
        b.wire()[BOUNDS_OFFSET_UPPER as int / 4 + 2] == b.upper.z.bits,
        b.wire()[BOUNDS_OFFSET_ALIGN1 as int / 4] == b.align1.bits,
{
}

} // verus!
