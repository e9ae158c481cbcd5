//! Single-precision numbers held by their bit patterns.
//!
//! The library stores such numbers and orders them; it does no arithmetic on
//! them. The ordering is that of IEEE 754: numbers compare by value, the two
//! zeros are equal, and a NaN is ordered with nothing.

use vstd::prelude::*;

verus! {

/// The pattern of the number one.
pub const ONE_BITS: u32 = 0x3f80_0000;

/// The pattern of positive infinity; any pattern whose magnitude lies above
/// it is a NaN.
pub const INFINITY_BITS: u32 = 0x7f80_0000;

/// The sign bit.
pub const SIGN_BIT: u32 = 0x8000_0000;

/// An IEEE 754 binary32 number, held by its bit pattern.
#[derive(Copy, Clone, Debug, PartialEq, Eq, Structural)]
pub struct Scalar {
    pub bits: u32,
}

impl Scalar {
    /// Whether the sign bit is set.
    pub open spec fn negative(self) -> bool {
        self.bits >= SIGN_BIT
    }

    /// The pattern without its sign bit.
    pub open spec fn magnitude(self) -> int {
        if self.negative() {
            self.bits - SIGN_BIT
        } else {
            self.bits as int
        }
    }

    /// Whether the pattern is a NaN.
    pub open spec fn is_nan(self) -> bool {
        self.magnitude() > INFINITY_BITS
    }

    /// An integer that orders the numbers as their values do: the magnitude,
    /// negated under a sign bit. Both zeros get 0.
    pub open spec fn order_key(self) -> int {
        if self.negative() {
            -self.magnitude()
        } else {
            self.magnitude()
        }
    }

    /// `self > other` as IEEE 754 has it: false as soon as either is a NaN.
    pub open spec fn spec_gt(self, other: Scalar) -> bool {
        !self.is_nan() && !other.is_nan() && self.order_key() > other.order_key()
    }

    pub fn from_bits(bits: u32) -> (s: Scalar)
        ensures
            s.bits == bits,
    {
        Scalar { bits }
    }

    pub fn to_bits(self) -> (bits: u32)
        ensures
            bits == self.bits,
    {
        self.bits
    }

    /// The number one.
    pub fn one() -> (s: Scalar)
        ensures
            s.bits == ONE_BITS,
    {
        Scalar { bits: ONE_BITS }
    }

    fn magnitude_bits(self) -> (m: u32)
        ensures
            m == self.magnitude(),
    {
        if self.bits >= SIGN_BIT {
            self.bits - SIGN_BIT
        } else {
            self.bits
        }
    }

    pub fn is_nan_value(self) -> (nan: bool)
        ensures
            nan == self.is_nan(),
    {
        self.magnitude_bits() > INFINITY_BITS
    }

    /// Whether `self` is strictly greater than `other`.
    pub fn gt(self, other: Scalar) -> (greater: bool)
        ensures
            greater == self.spec_gt(other),
    {
        if self.is_nan_value() || other.is_nan_value() {
            return false;
        }
        let a: u32 = self.magnitude_bits();
        let b: u32 = other.magnitude_bits();
        let a_negative: bool = self.bits >= SIGN_BIT;
        let b_negative: bool = other.bits >= SIGN_BIT;
        if a_negative {
            if b_negative {
                a < b
            } else {
                false
            }
        } else {
            if b_negative {
                a > 0 || b > 0
            } else {
                a > b
            }
        }
    }
}

} // verus!
