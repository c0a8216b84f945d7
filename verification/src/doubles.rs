//! Sampling bounds are IEEE-754 doubles. The library never does
//! floating-point arithmetic on them: it carries each bound as its raw 64-bit
//! pattern and compares patterns, which for non-NaN values orders exactly as
//! the doubles themselves do (sign-magnitude order, with the two zeros equal).

use vstd::prelude::*;

verus! {

/// An IEEE-754 double carried as its raw 64-bit pattern.
#[derive(Clone, Copy, Debug, PartialEq, Eq, Structural)]
pub struct DoubleBits {
    pub bits: u64,
}

/// The pattern encodes a NaN: exponent field all ones, mantissa non-zero.
pub open spec fn is_nan_bits(b: u64) -> bool {
    (b >> 52u64) & 0x7ff == 0x7ff && b & 0xf_ffff_ffff_ffff != 0
}

/// The sign bit of the pattern.
pub open spec fn sign_bit(b: u64) -> bool {
    b >> 63u64 == 1
}

/// The pattern with the sign bit cleared. For non-NaN patterns of one sign,
/// the encoded doubles order exactly as these magnitudes do.
pub open spec fn magnitude(b: u64) -> u64 {
    b & 0x7fff_ffff_ffff_ffff
}

/// The order key of a non-NaN double: its magnitude, negated for negative
/// values. Two non-NaN doubles compare exactly as their keys compare; the
/// two zeros share the key 0.
pub open spec fn order_key(b: u64) -> int {
    if sign_bit(b) {
        -(magnitude(b) as int)
    } else {
        magnitude(b) as int
    }
}

/// IEEE `a >= b`: false whenever either operand is NaN, otherwise decided by
/// the order keys.
pub open spec fn double_ge(a: DoubleBits, b: DoubleBits) -> bool {
    &&& !is_nan_bits(a.bits)
    &&& !is_nan_bits(b.bits)
    &&& order_key(a.bits) >= order_key(b.bits)
}

impl DoubleBits {
    /// Whether the carried pattern is a NaN.
    pub fn is_nan(&self) -> (r: bool)
        ensures
            r == is_nan_bits(self.bits),
    {
        (self.bits >> 52u64) & 0x7ff == 0x7ff && self.bits & 0xf_ffff_ffff_ffff != 0
    }

    /// IEEE `self >= other` on the carried patterns.
    pub fn ge(&self, other: &DoubleBits) -> (r: bool)
        ensures
            r == double_ge(*self, *other),
    {
        if self.is_nan() || other.is_nan() {
            return false;
        }
        let neg_a = self.bits >> 63u64 == 1;
        let neg_b = other.bits >> 63u64 == 1;
        let mag_a = self.bits & 0x7fff_ffff_ffff_ffff;
        let mag_b = other.bits & 0x7fff_ffff_ffff_ffff;
        if neg_a {
            if neg_b {
                mag_a <= mag_b
            } else {
                mag_a == 0 && mag_b == 0
            }
        } else {
            if neg_b {
                true
            } else {
                mag_a >= mag_b
            }
        }
    }
}

} // verus!
