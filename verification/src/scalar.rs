//! Binary64 numbers as bit patterns, and the order among them.

use vstd::prelude::*;

verus! {

/// The bit that carries the sign.
pub const SIGN_BIT: u64 = 0x8000_0000_0000_0000;

/// The pattern of positive infinity: every larger magnitude is a NaN.
pub const INFINITY_BITS: u64 = 0x7ff0_0000_0000_0000;

/// The pattern of `3`.
pub const THREE_BITS: u64 = 0x4008_0000_0000_0000;

/// The pattern of `-3`.
pub const MINUS_THREE_BITS: u64 = 0xc008_0000_0000_0000;

/// A binary64 number, held as its bit pattern: one sign bit, eleven bits of
/// exponent, fifty-two bits of fraction.
#[derive(Clone, Copy, Debug)]
pub struct Scalar {
    pub bits: u64,
}

impl Scalar {
    /// The pattern without its sign bit.
    pub open spec fn magnitude(self) -> u64 {
        if self.bits >= SIGN_BIT {
            (self.bits - SIGN_BIT) as u64
        } else {
            self.bits
        }
    }

    /// The sign bit is set. This holds of `-0` and of half of the NaNs too.
    pub open spec fn negative(self) -> bool {
        self.bits >= SIGN_BIT
    }

    /// The pattern is not a number.
    pub open spec fn nan(self) -> bool {
        self.magnitude() > INFINITY_BITS
    }

    /// Where a number stands among the others. Magnitudes of binary64 grow
    /// with their patterns read as integers, so the signed magnitude orders
    /// the numbers as their values do; both zeros stand at 0.
    pub open spec fn rank(self) -> int {
        if self.negative() {
            -(self.magnitude() as int)
        } else {
            self.magnitude() as int
        }
    }

    /// The two are numbers of one value. A NaN equals nothing, itself
    /// included, and `-0` equals `+0`.
    pub open spec fn spec_eq(self, other: Scalar) -> bool {
        !self.nan() && !other.nan() && self.rank() == other.rank()
    }

    /// `self` is a number strictly below the number `other`.
    pub open spec fn spec_lt(self, other: Scalar) -> bool {
        !self.nan() && !other.nan() && self.rank() < other.rank()
    }

    /// `self` is a number strictly above the number `other`.
    pub open spec fn spec_gt(self, other: Scalar) -> bool {
        other.spec_lt(self)
    }

    /// Positive zero.
    pub open spec fn zero_value() -> Scalar {
        Scalar { bits: 0 }
    }

    /// The number 3.
    pub open spec fn three_value() -> Scalar {
        Scalar { bits: THREE_BITS }
    }

    /// The number -3.
    pub open spec fn minus_three_value() -> Scalar {
        Scalar { bits: MINUS_THREE_BITS }
    }

    /// The number with the given pattern.
    pub fn from_bits(bits: u64) -> (r: Scalar)
        ensures
            r.bits == bits,
    {
        Scalar { bits }
    }

    /// The pattern of the number.
    pub fn to_bits(self) -> (bits: u64)
        ensures
            bits == self.bits,
    {
        self.bits
    }

    /// Positive zero.
    pub fn zero() -> (r: Scalar)
        ensures
            r == Scalar::zero_value(),
    {
        Scalar { bits: 0 }
    }

    /// The number 3, the speed at which an agent is sent back from below
    /// zero.
    pub fn three() -> (r: Scalar)
        ensures
            r == Scalar::three_value(),
    {
        Scalar { bits: THREE_BITS }
    }

    /// The number -3, the speed at which an agent is sent back from beyond
    /// a bound.
    pub fn minus_three() -> (r: Scalar)
        ensures
            r == Scalar::minus_three_value(),
    {
        Scalar { bits: MINUS_THREE_BITS }
    }

    fn magnitude_bits(self) -> (m: u64)
        ensures
            m == self.magnitude(),
    {
        if self.bits >= SIGN_BIT {
            self.bits - SIGN_BIT
        } else {
            self.bits
        }
    }

    /// Whether the sign bit is set.
    pub fn is_negative(self) -> (r: bool)
        ensures
            r == self.negative(),
    {
        self.bits >= SIGN_BIT
    }

    /// Whether the pattern is not a number.
    pub fn is_nan(self) -> (r: bool)
        ensures
            r == self.nan(),
    {
        self.magnitude_bits() > INFINITY_BITS
    }

    /// Whether the two are numbers of one value.
    pub fn eq(self, other: Scalar) -> (r: bool)
        ensures
            r == self.spec_eq(other),
    {
        if self.is_nan() || other.is_nan() {
            return false;
        }
        let a: u64 = self.magnitude_bits();
        let b: u64 = other.magnitude_bits();
        if a == 0 && b == 0 {
            true
        } else {
            self.bits == other.bits
        }
    }

    /// Whether `self` is a number strictly below the number `other`.
    pub fn lt(self, other: Scalar) -> (r: bool)
        ensures
            r == self.spec_lt(other),
    {
        if self.is_nan() || other.is_nan() {
            return false;
        }
        let a: u64 = self.magnitude_bits();
        let b: u64 = other.magnitude_bits();
        if self.is_negative() {
            if other.is_negative() {
                b < a
            } else {
                a > 0 || b > 0
            }
        } else {
            !other.is_negative() && a < b
        }
    }

    /// Whether `self` is a number strictly above the number `other`.
    pub fn gt(self, other: Scalar) -> (r: bool)
        ensures
            r == self.spec_gt(other),
    {
        other.lt(self)
    }
}

} // verus!
