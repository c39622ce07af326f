//! Real numbers as IEEE-754 binary64 bit patterns, ordered exactly.

use vstd::arithmetic::power2::pow2;
use vstd::prelude::*;

verus! {

/// Mask of the sign bit.
pub const SIGN_BIT: u64 = 0x8000_0000_0000_0000u64;

/// Mask of exponent and fraction.
pub const MAGNITUDE_MASK: u64 = 0x7fff_ffff_ffff_ffffu64;

/// Bit pattern of positive infinity; every larger magnitude is a NaN.
pub const INFINITY_BITS: u64 = 0x7ff0_0000_0000_0000u64;

/// Mask of the fraction.
pub const FRACTION_MASK: u64 = 0x000f_ffff_ffff_ffffu64;

/// The leading bit of a normal number's significand, which the pattern
/// leaves out.
pub const IMPLICIT_BIT: u64 = 0x0010_0000_0000_0000u64;

/// A binary64 number held by its bit pattern.
#[derive(Clone, Copy, Debug)]
pub struct Scalar {
    pub bits: u64,
}

impl Scalar {
    /// Exponent and fraction of the number, as an integer.
    pub open spec fn magnitude(self) -> int {
        (self.bits & MAGNITUDE_MASK) as int
    }

    /// Whether the sign bit is set.
    pub open spec fn negative(self) -> bool {
        self.bits & SIGN_BIT != 0
    }

    /// Whether the pattern is a NaN: a magnitude above that of infinity.
    pub open spec fn is_nan_spec(self) -> bool {
        self.magnitude() > INFINITY_BITS as int
    }

    /// The sign-magnitude integer of the pattern. On patterns that are not
    /// NaN it orders as the numbers do, and both zeros have key 0.
    pub open spec fn key(self) -> int {
        if self.negative() {
            -self.magnitude()
        } else {
            self.magnitude()
        }
    }

    /// The biased exponent: a normal number is its significand times 2 to
    /// the power of this less 1075.
    pub open spec fn exponent(self) -> int {
        ((self.bits >> 52) & 0x7ff) as int
    }

    /// The significand of a normal number, with its leading bit.
    pub open spec fn significand(self) -> int {
        IMPLICIT_BIT + (self.bits & FRACTION_MASK)
    }

    /// The number cut to a byte: 0 for a NaN, a negative number or one
    /// below 1; 255 for a number from 256 on; else its integer part.
    pub open spec fn to_byte_spec(self) -> int {
        if self.is_nan_spec() || self.negative() || self.exponent() < 1023 {
            0
        } else if self.exponent() >= 1031 {
            255
        } else {
            self.significand() / (pow2((1075 - self.exponent()) as nat) as int)
        }
    }

    /// The number with its sign bit flipped.
    pub open spec fn neg_spec(self) -> Scalar {
        Scalar { bits: self.bits ^ SIGN_BIT }
    }

    /// `|self| < bound` as numbers: false when either is a NaN, and for
    /// every bound that is not above zero.
    pub open spec fn abs_lt_spec(self, bound: Scalar) -> bool {
        !self.is_nan_spec() && !bound.is_nan_spec() && -bound.key() < self.key() < bound.key()
    }

    /// `self < other` as numbers: false when either is a NaN.
    pub open spec fn lt_spec(self, other: Scalar) -> bool {
        !self.is_nan_spec() && !other.is_nan_spec() && self.key() < other.key()
    }

    /// `self <= other` as numbers: false when either is a NaN.
    pub open spec fn le_spec(self, other: Scalar) -> bool {
        !self.is_nan_spec() && !other.is_nan_spec() && self.key() <= other.key()
    }

    pub fn from_bits(bits: u64) -> (s: Scalar)
        ensures
            s.bits == bits,
    {
        Scalar { bits }
    }

    pub fn to_bits(self) -> (bits: u64)
        ensures
            bits == self.bits,
    {
        self.bits
    }

    /// The number zero, with a clear sign bit.
    pub fn zero() -> (s: Scalar)
        ensures
            s.bits == 0,
            s.key() == 0,
            !s.is_nan_spec(),
    {
        proof {
            assert(0u64 & MAGNITUDE_MASK == 0) by (bit_vector);
            assert(0u64 & SIGN_BIT == 0) by (bit_vector);
        }
        Scalar { bits: 0 }
    }

    pub fn is_nan(self) -> (b: bool)
        ensures
            b == self.is_nan_spec(),
    {
        (self.bits & MAGNITUDE_MASK) > INFINITY_BITS
    }

    pub fn is_negative(self) -> (b: bool)
        ensures
            b == self.negative(),
    {
        (self.bits & SIGN_BIT) != 0
    }

    /// `self < other` as numbers.
    pub fn lt(self, other: Scalar) -> (b: bool)
        ensures
            b == self.lt_spec(other),
    {
        let ma: u64 = self.bits & MAGNITUDE_MASK;
        let mb: u64 = other.bits & MAGNITUDE_MASK;
        if ma > INFINITY_BITS || mb > INFINITY_BITS {
            return false;
        }
        let na = (self.bits & SIGN_BIT) != 0;
        let nb = (other.bits & SIGN_BIT) != 0;
        if na {
            if nb {
                ma > mb
            } else {
                ma != 0 || mb != 0
            }
        } else {
            if nb {
                false
            } else {
                ma < mb
            }
        }
    }

    /// `self <= other` as numbers.
    pub fn le(self, other: Scalar) -> (b: bool)
        ensures
            b == self.le_spec(other),
    {
        let ma: u64 = self.bits & MAGNITUDE_MASK;
        let mb: u64 = other.bits & MAGNITUDE_MASK;
        if ma > INFINITY_BITS || mb > INFINITY_BITS {
            return false;
        }
        let na = (self.bits & SIGN_BIT) != 0;
        let nb = (other.bits & SIGN_BIT) != 0;
        if na {
            if nb {
                ma >= mb
            } else {
                true
            }
        } else {
            if nb {
                ma == 0 && mb == 0
            } else {
                ma <= mb
            }
        }
    }

    /// The number with its sign bit flipped: the negation of every pattern,
    /// NaN included.
    pub fn neg(self) -> (s: Scalar)
        ensures
            s == self.neg_spec(),
            s.magnitude() == self.magnitude(),
            s.negative() == !self.negative(),
            s.key() == -self.key(),
            s.is_nan_spec() == self.is_nan_spec(),
    {
        proof {
            lemma_neg(self);
        }
        Scalar { bits: self.bits ^ SIGN_BIT }
    }

    /// The number cut to a byte.
    pub fn to_byte(self) -> (b: u8)
        ensures
            b as int == self.to_byte_spec(),
    {
        let e: u64 = (self.bits >> 52) & 0x7ff;
        if self.is_nan() || self.is_negative() || e < 1023 {
            return 0;
        }
        if e >= 1031 {
            return 255;
        }
        let f: u64 = self.bits & FRACTION_MASK;
        let m: u64 = f | IMPLICIT_BIT;
        let shift: u64 = 1075 - e;
        let q: u64 = m >> shift;
        proof {
            let b = self.bits;
            assert(((b & 0x000f_ffff_ffff_ffffu64) | 0x0010_0000_0000_0000u64)
                == 0x0010_0000_0000_0000u64 + (b & 0x000f_ffff_ffff_ffffu64)) by (bit_vector);
            assert(m < 0x0020_0000_0000_0000u64 && 45 <= shift <= 52 ==> (m >> shift) < 256)
                by (bit_vector);
            assert((b & 0x000f_ffff_ffff_ffffu64) < 0x0010_0000_0000_0000u64) by (bit_vector);
            vstd::bits::lemma_u64_shr_is_div(m, shift);
        }
        q as u8
    }

    /// `|self| < bound` as numbers.
    pub fn abs_lt(self, bound: Scalar) -> (b: bool)
        ensures
            b == self.abs_lt_spec(bound),
    {
        if bound.is_nan() || bound.is_negative() {
            return false;
        }
        (self.bits & MAGNITUDE_MASK) < (bound.bits & MAGNITUDE_MASK)
    }
}

/// Negation mirrors the order and keeps what is a NaN; negating twice
/// gives the number back.
pub proof fn lemma_neg(s: Scalar)
    ensures
        s.neg_spec().neg_spec() == s,
        s.neg_spec().magnitude() == s.magnitude(),
        s.neg_spec().negative() == !s.negative(),
        s.neg_spec().key() == -s.key(),
        s.neg_spec().is_nan_spec() == s.is_nan_spec(),
{
    let b = s.bits;
    assert((b ^ 0x8000_0000_0000_0000u64) ^ 0x8000_0000_0000_0000u64 == b) by (bit_vector);
    assert((b ^ 0x8000_0000_0000_0000u64) & 0x7fff_ffff_ffff_ffffu64 == b
        & 0x7fff_ffff_ffff_ffffu64) by (bit_vector);
    assert(((b ^ 0x8000_0000_0000_0000u64) & 0x8000_0000_0000_0000u64 != 0) == (b
        & 0x8000_0000_0000_0000u64 == 0)) by (bit_vector);
}

} // verus!
