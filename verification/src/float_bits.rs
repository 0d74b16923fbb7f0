//! Single-precision numbers as bit patterns.
//!
//! The scene layer never does arithmetic on coordinates or distances: it
//! stores them, lays them out for the engine and compares them. A number is
//! therefore kept as the 32 bits of its IEEE-754 encoding, and comparison is
//! defined on the encoding.
use vstd::prelude::*;
use core::cmp::Ordering;

verus! {

/// The sign bit of the encoding.
pub const SIGN_BIT: u32 = 0x8000_0000;

/// The encoding of positive infinity; every larger magnitude is a NaN.
pub const INFINITY_BITS: u32 = 0x7f80_0000;

/// The encoding of negative infinity.
pub const NEG_INFINITY_BITS: u32 = 0xff80_0000;

/// The encoding of the largest finite number.
pub const MAX_BITS: u32 = 0x7f7f_ffff;

/// The encoding of the smallest (most negative) finite number.
pub const MIN_BITS: u32 = 0xff7f_ffff;

/// A single-precision number, held as its IEEE-754 bit pattern.
///
/// In contracts two values are equal when their patterns are. The operators
/// `==` and `<` in executable code compare as the numbers do: a NaN is
/// unordered and unequal to everything, and the two zeros are equal.
#[derive(Clone, Copy, Debug)]
pub struct FloatBits {
    pub bits: u32,
}

impl FloatBits {
    /// The pattern without its sign bit.
    pub open spec fn magnitude(self) -> int {
        if self.bits >= SIGN_BIT {
            self.bits - SIGN_BIT
        } else {
            self.bits as int
        }
    }

    /// Whether the sign bit is set.
    pub open spec fn sign_negative(self) -> bool {
        self.bits >= SIGN_BIT
    }

    pub open spec fn spec_is_nan(self) -> bool {
        self.magnitude() > INFINITY_BITS
    }

    pub open spec fn spec_is_finite(self) -> bool {
        self.magnitude() < INFINITY_BITS
    }

    /// The place of a number that is no NaN on the number line: numbers
    /// compare as their ranks do. Both zeros have rank 0.
    pub open spec fn rank(self) -> int {
        if self.sign_negative() {
            -self.magnitude()
        } else {
            self.magnitude()
        }
    }

    /// `self < other` as numbers.
    pub open spec fn less(self, other: FloatBits) -> bool {
        !self.spec_is_nan() && !other.spec_is_nan() && self.rank() < other.rank()
    }

    /// `self <= other` as numbers.
    pub open spec fn less_eq(self, other: FloatBits) -> bool {
        !self.spec_is_nan() && !other.spec_is_nan() && self.rank() <= other.rank()
    }

    /// `self == other` as numbers.
    pub open spec fn same_number(self, other: FloatBits) -> bool {
        !self.spec_is_nan() && !other.spec_is_nan() && self.rank() == other.rank()
    }

    pub fn from_bits(bits: u32) -> (x: FloatBits)
        ensures
            x.bits == bits,
    {
        FloatBits { bits }
    }

    pub open spec fn spec_to_bits(self) -> u32 {
        self.bits
    }

    #[verifier::when_used_as_spec(spec_to_bits)]
    pub fn to_bits(self) -> (bits: u32)
        ensures
            bits == self.bits,
    {
        self.bits
    }

    /// Positive zero.
    pub fn zero() -> (x: FloatBits)
        ensures
            x.bits == 0,
    {
        FloatBits { bits: 0 }
    }

    /// Negative infinity.
    pub fn neg_infinity() -> (x: FloatBits)
        ensures
            x.bits == NEG_INFINITY_BITS,
    {
        FloatBits { bits: NEG_INFINITY_BITS }
    }

    /// The largest finite number.
    pub fn max_value() -> (x: FloatBits)
        ensures
            x.bits == MAX_BITS,
    {
        FloatBits { bits: MAX_BITS }
    }

    /// The smallest finite number.
    pub fn min_value() -> (x: FloatBits)
        ensures
            x.bits == MIN_BITS,
    {
        FloatBits { bits: MIN_BITS }
    }

    fn magnitude_bits(self) -> (m: u32)
        ensures
            m == self.magnitude(),
    {
        if self.bits >= SIGN_BIT {
            self.bits - SIGN_BIT
        } else {
            self.bits
        }
    }

    #[verifier::when_used_as_spec(spec_is_nan)]
    pub fn is_nan(self) -> (b: bool)
        ensures
            b == self.spec_is_nan(),
    {
        self.magnitude_bits() > INFINITY_BITS
    }

    #[verifier::when_used_as_spec(spec_is_finite)]
    pub fn is_finite(self) -> (b: bool)
        ensures
            b == self.spec_is_finite(),
    {
        self.magnitude_bits() < INFINITY_BITS
    }
}

impl PartialEq for FloatBits {
    fn eq(&self, other: &FloatBits) -> (r: bool) {
        if self.is_nan() || other.is_nan() {
            false
        } else {
            let a = self.magnitude_bits();
            let b = other.magnitude_bits();
            (a == 0 && b == 0) || self.bits == other.bits
        }
    }
}

impl vstd::std_specs::cmp::PartialEqSpecImpl for FloatBits {
    open spec fn obeys_eq_spec() -> bool {
        true
    }

    open spec fn eq_spec(&self, other: &FloatBits) -> bool {
        self.same_number(*other)
    }
}

impl PartialOrd for FloatBits {
    fn partial_cmp(&self, other: &FloatBits) -> (r: Option<Ordering>) {
        if self.is_nan() || other.is_nan() {
            return None;
        }
        let a = self.magnitude_bits();
        let b = other.magnitude_bits();
        let a_neg = self.bits >= SIGN_BIT;
        let b_neg = other.bits >= SIGN_BIT;
        if a_neg && b_neg {
            if a > b {
                Some(Ordering::Less)
            } else if a == b {
                Some(Ordering::Equal)
            } else {
                Some(Ordering::Greater)
            }
        } else if a_neg {
            if a == 0 && b == 0 {
                Some(Ordering::Equal)
            } else {
                Some(Ordering::Less)
            }
        } else if b_neg {
            if a == 0 && b == 0 {
                Some(Ordering::Equal)
            } else {
                Some(Ordering::Greater)
            }
        } else {
            if a < b {
                Some(Ordering::Less)
            } else if a == b {
                Some(Ordering::Equal)
            } else {
                Some(Ordering::Greater)
            }
        }
    }
}

impl vstd::std_specs::cmp::PartialOrdSpecImpl for FloatBits {
    open spec fn obeys_partial_cmp_spec() -> bool {
        true
    }

    open spec fn partial_cmp_spec(&self, other: &FloatBits) -> Option<Ordering> {
        if self.spec_is_nan() || other.spec_is_nan() {
            None
        } else if self.rank() < other.rank() {
            Some(Ordering::Less)
        } else if self.rank() == other.rank() {
            Some(Ordering::Equal)
        } else {
            Some(Ordering::Greater)
        }
    }
}

} // verus!
