//! IEEE 754 binary64 values, held by their bit patterns.
//!
//! A finite binary64 value is an integer multiple of 2^-1074, the smallest
//! positive subnormal. The model of a value is that integer, so that every
//! statement about a value is a statement about whole numbers: one is
//! `pow2(1074)`, and a probability is a finite value between zero and that.

use vstd::arithmetic::power2::{lemma2_to64, lemma2_to64_rest, lemma_pow2_adds, lemma_pow2_pos, lemma_pow2_strictly_increases, pow2};
use vstd::prelude::*;

verus! {

/// Two to the power fifty-two: the weight of the lowest exponent bit, and the
/// implicit leading bit of a normal significand.
pub const FRACTION_LIMIT: u64 = 0x0010_0000_0000_0000;

/// The biased exponent that marks infinities and NaNs.
pub const EXPONENT_SPECIAL: u64 = 0x7ff;

/// The pattern of positive zero.
pub const ZERO_BITS: u64 = 0;

/// The pattern of negative zero, which is the sign bit alone.
pub const NEGATIVE_ZERO_BITS: u64 = 0x8000_0000_0000_0000;

/// The pattern of one.
pub const ONE_BITS: u64 = 0x3ff0_0000_0000_0000;

/// The pattern of positive infinity.
pub const INFINITY_BITS: u64 = 0x7ff0_0000_0000_0000;

/// The pattern of negative infinity.
pub const NEGATIVE_INFINITY_BITS: u64 = 0xfff0_0000_0000_0000;

/// The number of units of 2^-1074 in one.
pub open spec fn unit() -> nat {
    pow2(1074)
}

/// A binary64 value, held by its 64-bit pattern: one sign bit, eleven bits of
/// biased exponent, fifty-two bits of fraction.
#[derive(Clone, Copy, Debug, PartialEq, Eq, Structural)]
pub struct Binary64 {
    pub bits: u64,
}

impl Binary64 {
    /// Whether the sign bit is set.
    pub open spec fn sign(self) -> bool {
        self.bits >= NEGATIVE_ZERO_BITS
    }

    /// The eleven exponent bits, as a number.
    pub open spec fn biased_exponent(self) -> nat {
        ((self.bits / FRACTION_LIMIT) % 0x800) as nat
    }

    /// The fifty-two fraction bits, as a number.
    pub open spec fn fraction(self) -> nat {
        (self.bits % FRACTION_LIMIT) as nat
    }

    /// Whether the pattern is a NaN.
    pub open spec fn nan(self) -> bool {
        self.biased_exponent() == EXPONENT_SPECIAL && self.fraction() != 0
    }

    /// Whether the pattern is one of the two infinities.
    pub open spec fn infinite(self) -> bool {
        self.biased_exponent() == EXPONENT_SPECIAL && self.fraction() == 0
    }

    /// Whether the pattern is a number: zero, subnormal or normal.
    pub open spec fn finite(self) -> bool {
        self.biased_exponent() < EXPONENT_SPECIAL
    }

    /// The significand with its leading bit, which is implicit in a normal
    /// value and absent in a subnormal one.
    pub open spec fn significand(self) -> nat {
        if self.biased_exponent() == 0 {
            self.fraction()
        } else {
            FRACTION_LIMIT as nat + self.fraction()
        }
    }

    /// The power of two that the significand is multiplied by, in units of
    /// 2^-1074.
    pub open spec fn shift(self) -> nat {
        if self.biased_exponent() == 0 {
            0
        } else {
            (self.biased_exponent() - 1) as nat
        }
    }

    /// The absolute value of a finite pattern, in units of 2^-1074.
    pub open spec fn magnitude(self) -> nat {
        self.significand() * pow2(self.shift())
    }

    /// The value of a finite pattern, in units of 2^-1074.
    pub open spec fn scaled(self) -> int {
        if self.sign() {
            -(self.magnitude() as int)
        } else {
            self.magnitude() as int
        }
    }

    /// Whether the value is at most zero: minus infinity, a negative number
    /// or either zero. A NaN is not.
    pub open spec fn le_zero(self) -> bool {
        if self.finite() {
            self.scaled() <= 0
        } else {
            self.infinite() && self.sign()
        }
    }

    /// Whether the value is a number from zero to one, both included.
    pub open spec fn in_unit_interval(self) -> bool {
        self.finite() && 0 <= self.scaled() <= unit()
    }

    /// The value with the given bit pattern.
    pub fn from_bits(bits: u64) -> (value: Binary64)
        ensures
            value.bits == bits,
    {
        Binary64 { bits }
    }

    /// The bit pattern of the value.
    pub fn to_bits(&self) -> (bits: u64)
        ensures
            bits == self.bits,
    {
        self.bits
    }

    /// Whether the value is a NaN.
    pub fn is_nan(&self) -> (answer: bool)
        ensures
            answer == self.nan(),
    {
        let bits: u64 = self.bits;
        assert((bits & 0x7fff_ffff_ffff_ffff) > 0x7ff0_0000_0000_0000 <==> (bits
            / 0x0010_0000_0000_0000) % 0x800 == 0x7ff && bits % 0x0010_0000_0000_0000 != 0)
            by (bit_vector);
        (bits & 0x7fff_ffff_ffff_ffff) > INFINITY_BITS
    }

    /// Whether the value compares as less than or equal to zero.
    pub fn is_non_positive(&self) -> (answer: bool)
        ensures
            answer == self.le_zero(),
    {
        proof {
            lemma_le_zero(*self);
        }
        self.bits == ZERO_BITS || (NEGATIVE_ZERO_BITS <= self.bits && self.bits
            <= NEGATIVE_INFINITY_BITS)
    }

    /// Whether the value is a probability: a number from zero to one.
    pub fn is_probability(&self) -> (answer: bool)
        ensures
            answer == self.in_unit_interval(),
    {
        proof {
            lemma_unit_interval(*self);
        }
        self.bits <= ONE_BITS || self.bits == NEGATIVE_ZERO_BITS
    }
}

/// A pattern is its three fields laid side by side.
pub proof fn lemma_fields(x: Binary64)
    ensures
        x.fraction() < FRACTION_LIMIT,
        x.biased_exponent() < 0x800,
        x.bits == (if x.sign() {
            NEGATIVE_ZERO_BITS as int
        } else {
            0
        }) + x.biased_exponent() * FRACTION_LIMIT + x.fraction(),
{
    let bits: u64 = x.bits;
    assert(bits == (if bits >= 0x8000_0000_0000_0000 {
        0x8000_0000_0000_0000u64
    } else {
        0u64
    }) + ((bits / 0x0010_0000_0000_0000) % 0x800) * 0x0010_0000_0000_0000 + bits
        % 0x0010_0000_0000_0000) by (bit_vector);
}

/// The magnitude of a pattern is zero exactly when its exponent and fraction
/// fields are.
pub proof fn lemma_magnitude_zero(x: Binary64)
    ensures
        x.magnitude() == 0 <==> x.biased_exponent() == 0 && x.fraction() == 0,
{
    lemma_pow2_pos(x.shift());
    let s = x.significand() as int;
    let p = pow2(x.shift()) as int;
    assert(s * p == 0 <==> s == 0) by (nonlinear_arith)
        requires
            p > 0,
            s >= 0,
    ;
}

/// Where a finite magnitude stands against one: below it for an exponent
/// field under 1023, above it for one over 1023, and ordered by the fraction
/// for 1023 itself.
pub proof fn lemma_magnitude_against_unit(x: Binary64)
    requires
        x.finite(),
    ensures
        x.biased_exponent() < 1023 ==> x.magnitude() < unit(),
        x.biased_exponent() == 1023 ==> (x.magnitude() <= unit() <==> x.fraction() == 0),
        x.biased_exponent() > 1023 ==> x.magnitude() > unit(),
{
    lemma_fields(x);
    lemma2_to64();
    lemma2_to64_rest();
    let e = x.biased_exponent();
    let s = x.significand() as int;
    let k = x.shift();
    let p = pow2(k) as int;
    lemma_pow2_pos(k);
    assert(pow2(52) == FRACTION_LIMIT);
    assert(pow2(53) == 2 * FRACTION_LIMIT);
    if e < 1023 {
        // s < 2^53 and k + 53 <= 1074
        lemma_pow2_adds(53, k);
        assert(s * p < pow2(53) * p) by (nonlinear_arith)
            requires
                s < pow2(53),
                p > 0,
        ;
        if k + 53 < 1074 {
            lemma_pow2_strictly_increases(53 + k, 1074);
        }
    } else if e == 1023 {
        lemma_pow2_adds(52, 1022);
        let one = pow2(52) as int;
        assert(s * p <= one * p <==> s <= one) by (nonlinear_arith)
            requires
                p > 0,
        ;
    } else {
        lemma_pow2_adds(52, k);
        assert(s * p >= pow2(52) * p) by (nonlinear_arith)
            requires
                s >= pow2(52),
                p > 0,
        ;
        lemma_pow2_strictly_increases(1074, 52 + k);
    }
}

/// A value is at most zero exactly when its pattern is positive zero, or has
/// the sign bit and is no NaN.
pub proof fn lemma_le_zero(x: Binary64)
    ensures
        x.le_zero() <==> x.bits == ZERO_BITS || NEGATIVE_ZERO_BITS <= x.bits
            <= NEGATIVE_INFINITY_BITS,
{
    lemma_fields(x);
    lemma_magnitude_zero(x);
}

/// A value is a probability exactly when its pattern is at most that of one,
/// or is that of negative zero.
pub proof fn lemma_unit_interval(x: Binary64)
    ensures
        x.in_unit_interval() <==> x.bits <= ONE_BITS || x.bits == NEGATIVE_ZERO_BITS,
{
    lemma_fields(x);
    lemma_magnitude_zero(x);
    if x.finite() {
        lemma_magnitude_against_unit(x);
    }
}

} // verus!
