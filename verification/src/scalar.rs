//! Binary64 numbers as bit patterns, with their order and classes decided by
//! integer logic.
//!
//! A [`Scalar`] holds the 64 bits of an IEEE-754 double: one sign bit, eleven
//! exponent bits and fifty-two fraction bits. For every pattern that is not a
//! NaN the numeric order of the doubles is the order of the sign-magnitude
//! integers [`Scalar::key`], with both zeros at key 0. A NaN compares false with
//! everything, itself included.

use vstd::prelude::*;

verus! {

/// The sign bit of a binary64 pattern.
pub const SIGN_BIT: u64 = 0x8000_0000_0000_0000;

/// The pattern of positive infinity; every larger magnitude is a NaN.
pub const INFINITY_BITS: u64 = 0x7FF0_0000_0000_0000;

/// The pattern of the smallest positive normal number.
pub const MIN_NORMAL_BITS: u64 = 0x0010_0000_0000_0000;

/// The pattern of `0.0`.
pub const ZERO_BITS: u64 = 0;

/// The pattern of `1.0`.
pub const ONE_BITS: u64 = 0x3FF0_0000_0000_0000;

/// A binary64 number, held as its bit pattern.
#[derive(Clone, Copy, Debug)]
pub struct Scalar {
    pub bits: u64,
}

impl Scalar {
    /// The pattern without its sign bit.
    pub open spec fn magnitude(self) -> int {
        self.bits as int % SIGN_BIT as int
    }

    /// Whether the sign bit is set.
    pub open spec fn sign_set(self) -> bool {
        self.bits >= SIGN_BIT
    }

    /// Whether the pattern is a NaN.
    pub open spec fn nan(self) -> bool {
        self.magnitude() > INFINITY_BITS as int
    }

    /// Whether the pattern is neither a NaN nor an infinity.
    pub open spec fn finite(self) -> bool {
        self.magnitude() < INFINITY_BITS as int
    }

    /// The place of a non-NaN pattern in the numeric order.
    pub open spec fn key(self) -> int {
        if self.sign_set() {
            -self.magnitude()
        } else {
            self.magnitude()
        }
    }

    /// `self <= other` as doubles compare.
    pub open spec fn at_most(self, other: Scalar) -> bool {
        !self.nan() && !other.nan() && self.key() <= other.key()
    }

    /// `self < other` as doubles compare.
    pub open spec fn below(self, other: Scalar) -> bool {
        !self.nan() && !other.nan() && self.key() < other.key()
    }

    /// Whether the number is greater than zero; an infinity may be.
    pub open spec fn positive(self) -> bool {
        !self.nan() && self.key() > 0
    }

    /// Whether the number is finite and greater than zero.
    pub open spec fn positive_finite(self) -> bool {
        self.finite() && self.key() > 0
    }

    /// Whether a boundary ratio is on the stable side of its curve: at most
    /// one. A ratio of exactly one is.
    pub open spec fn within_unity(self) -> bool {
        self.at_most(Scalar { bits: ONE_BITS })
    }

    /// Whether a boundary ratio is past its curve: greater than one.
    pub open spec fn above_unity(self) -> bool {
        (Scalar { bits: ONE_BITS }).below(self)
    }

    /// Whether the magnitude is zero or subnormal.
    pub open spec fn negligible(self) -> bool {
        self.magnitude() < MIN_NORMAL_BITS as int
    }

    /// Wraps a bit pattern.
    pub fn from_bits(bits: u64) -> (r: Scalar)
        ensures
            r == (Scalar { bits }),
    {
        Scalar { bits }
    }

    /// The bit pattern.
    pub fn to_bits(self) -> (bits: u64)
        ensures
            bits == self.bits,
    {
        self.bits
    }

    fn abs_bits(self) -> (m: u64)
        ensures
            m == self.magnitude(),
    {
        self.bits % SIGN_BIT
    }

    fn has_sign(self) -> (s: bool)
        ensures
            s == self.sign_set(),
    {
        self.bits >= SIGN_BIT
    }

    /// Whether the number is a NaN.
    pub fn is_nan(self) -> (r: bool)
        ensures
            r == self.nan(),
    {
        self.abs_bits() > INFINITY_BITS
    }

    /// Whether the number is neither a NaN nor an infinity.
    pub fn is_finite(self) -> (r: bool)
        ensures
            r == self.finite(),
    {
        self.abs_bits() < INFINITY_BITS
    }

    /// `self <= other`; false when either is a NaN.
    pub fn le(self, other: Scalar) -> (r: bool)
        ensures
            r == self.at_most(other),
    {
        let a: u64 = self.abs_bits();
        let b: u64 = other.abs_bits();
        if a > INFINITY_BITS || b > INFINITY_BITS {
            false
        } else if self.has_sign() {
            if other.has_sign() {
                b <= a
            } else {
                true
            }
        } else if other.has_sign() {
            a == 0 && b == 0
        } else {
            a <= b
        }
    }

    /// `self < other`; false when either is a NaN.
    pub fn lt(self, other: Scalar) -> (r: bool)
        ensures
            r == self.below(other),
    {
        let a: u64 = self.abs_bits();
        let b: u64 = other.abs_bits();
        if a > INFINITY_BITS || b > INFINITY_BITS {
            false
        } else if self.has_sign() {
            if other.has_sign() {
                b < a
            } else {
                a != 0 || b != 0
            }
        } else if other.has_sign() {
            false
        } else {
            a < b
        }
    }

    /// `self > other`; false when either is a NaN.
    pub fn gt(self, other: Scalar) -> (r: bool)
        ensures
            r == other.below(self),
    {
        other.lt(self)
    }

    /// Whether the number is greater than zero; an infinity may be.
    pub fn is_positive(self) -> (r: bool)
        ensures
            r == self.positive(),
    {
        let a: u64 = self.abs_bits();
        !self.has_sign() && 0 < a && a <= INFINITY_BITS
    }

    /// Whether the number is finite and greater than zero.
    pub fn is_positive_finite(self) -> (r: bool)
        ensures
            r == self.positive_finite(),
    {
        let a: u64 = self.abs_bits();
        !self.has_sign() && 0 < a && a < INFINITY_BITS
    }

    /// Whether a boundary ratio is at most one.
    pub fn is_within_unity(self) -> (r: bool)
        ensures
            r == self.within_unity(),
    {
        self.le(Scalar { bits: ONE_BITS })
    }

    /// Whether a boundary ratio is greater than one.
    pub fn is_above_unity(self) -> (r: bool)
        ensures
            r == self.above_unity(),
    {
        self.gt(Scalar { bits: ONE_BITS })
    }

    /// Whether the magnitude is zero or subnormal.
    pub fn is_negligible(self) -> (r: bool)
        ensures
            r == self.negligible(),
    {
        self.abs_bits() < MIN_NORMAL_BITS
    }
}

/// The number zero.
pub fn zero() -> (r: Scalar)
    ensures
        r == (Scalar { bits: ZERO_BITS }),
{
    Scalar { bits: ZERO_BITS }
}

/// The number one.
pub fn one() -> (r: Scalar)
    ensures
        r == (Scalar { bits: ONE_BITS }),
{
    Scalar { bits: ONE_BITS }
}

/// The order of non-NaN numbers is total: of two such numbers one is at most
/// the other, and `below` is the strict part of `at_most`.
pub proof fn order_is_total(a: Scalar, b: Scalar)
    requires
        !a.nan(),
        !b.nan(),
    ensures
        a.at_most(b) || b.at_most(a),
        a.below(b) <==> !b.at_most(a),
{
}

/// A ratio is never on both sides of its curve, and only a NaN is on neither.
pub proof fn unity_sides(ratio: Scalar)
    ensures
        !(ratio.within_unity() && ratio.above_unity()),
        ratio.nan() <==> !ratio.within_unity() && !ratio.above_unity(),
{
}

/// A NaN is neither below, above nor equal to anything.
pub proof fn nan_is_unordered(a: Scalar, b: Scalar)
    requires
        a.nan() || b.nan(),
    ensures
        !a.at_most(b),
        !b.at_most(a),
        !a.below(b),
        !b.below(a),
{
}

} // verus!
