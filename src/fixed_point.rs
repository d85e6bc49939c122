//! Unsigned 64.64 fixed-point numbers, held as their raw 128-bit pattern.
//!
//! Multiplication, division, square root and decimal rendering are done by
//! the `fixed` and `fixed-sqrt` crates; their contracts are stated over the
//! raw bits.

use fixed::types::U64F64;
use fixed_sqrt::FixedSqrt;
use vstd::prelude::*;

verus! {

/// Raw pattern of the value one (2^64).
pub const ONE_BITS: u128 = 0x1_0000_0000_0000_0000;

/// Raw pattern of 2^32, the square root of one raw unit scaled to 64.64.
pub const HALF_SHIFT: u128 = 0x1_0000_0000;

/// Clamps a non-negative integer into the raw range.
pub open spec fn saturate(x: int) -> u128 {
    if x > u128::MAX {
        u128::MAX
    } else if x < 0 {
        0
    } else {
        x as u128
    }
}

pub open spec fn spec_add(a: u128, b: u128) -> u128 {
    saturate(a + b)
}

pub open spec fn spec_sub(a: u128, b: u128) -> u128 {
    saturate(a - b)
}

/// Product of two 64.64 values, truncated, saturating.
pub open spec fn spec_mul(a: u128, b: u128) -> u128 {
    saturate((a * b) / (ONE_BITS as int))
}

/// Quotient of two 64.64 values, truncated, saturating.
pub open spec fn spec_div(a: u128, b: u128) -> u128
    recommends
        b > 0,
{
    saturate((a * ONE_BITS) / (b as int))
}

/// Product of a 64.64 value and an integer, saturating.
pub open spec fn spec_mul_int(a: u128, n: u128) -> u128 {
    saturate(a * n)
}

/// `s` is the integer square root of `x`.
pub open spec fn is_isqrt(s: int, x: int) -> bool {
    0 <= s && s * s <= x < (s + 1) * (s + 1)
}

/// Square root of a 64.64 value: the integer square root of the raw bits,
/// shifted back into place.
pub open spec fn is_fixed_sqrt(r: u128, x: u128) -> bool {
    r % HALF_SHIFT == 0 && is_isqrt((r / HALF_SHIFT) as int, x as int)
}

/// The square root that `is_fixed_sqrt` pins down.
pub open spec fn fixed_sqrt_of(x: u128) -> u128 {
    choose|r: u128| is_fixed_sqrt(r, x)
}

/// At most one integer square root exists.
pub proof fn lemma_isqrt_unique(s1: int, s2: int, x: int)
    requires
        is_isqrt(s1, x),
        is_isqrt(s2, x),
    ensures
        s1 == s2,
{
    if s1 < s2 {
        assert((s1 + 1) * (s1 + 1) <= s2 * s2) by (nonlinear_arith)
            requires
                0 <= s1 < s2,
        ;
    } else if s2 < s1 {
        assert((s2 + 1) * (s2 + 1) <= s1 * s1) by (nonlinear_arith)
            requires
                0 <= s2 < s1,
        ;
    }
}

/// A result that meets `is_fixed_sqrt` is `fixed_sqrt_of`.
pub proof fn lemma_fixed_sqrt_of(r: u128, x: u128)
    requires
        is_fixed_sqrt(r, x),
    ensures
        r == fixed_sqrt_of(x),
{
    let c = fixed_sqrt_of(x);
    assert(is_fixed_sqrt(c, x));
    lemma_isqrt_unique((r / HALF_SHIFT) as int, (c / HALF_SHIFT) as int, x as int);
}

pub open spec fn spec_min(a: u128, b: u128) -> u128 {
    if a <= b {
        a
    } else {
        b
    }
}

pub open spec fn spec_max(a: u128, b: u128) -> u128 {
    if a >= b {
        a
    } else {
        b
    }
}

/// The decimal text that `fixed` renders for a raw 64.64 value.
pub uninterp spec fn decimal_of(bits: u128) -> Seq<char>;

/// Relies on `FixedU128::saturating_mul` of `fixed`: the 256-bit product
/// shifted right by the fractional bits, `MAX` when it does not fit.
#[verifier::external_body]
fn fixed_saturating_mul(a: u128, b: u128) -> (r: u128)
    ensures
        r == spec_mul(a, b),
{
    U64F64::from_bits(a).saturating_mul(U64F64::from_bits(b)).to_bits()
}

/// Relies on `FixedU128::saturating_div` of `fixed`: the dividend shifted
/// left by the fractional bits, divided by the divisor with truncation,
/// `MAX` when it does not fit. It panics on a zero divisor.
#[verifier::external_body]
fn fixed_saturating_div(a: u128, b: u128) -> (r: u128)
    requires
        b > 0,
    ensures
        r == spec_div(a, b),
{
    U64F64::from_bits(a).saturating_div(U64F64::from_bits(b)).to_bits()
}

/// Relies on `FixedSqrt::sqrt` of `fixed-sqrt` for an even number of
/// fractional bits: `integer_sqrt` of the raw bits shifted left by 32.
#[verifier::external_body]
fn fixed_sqrt(a: u128) -> (r: u128)
    ensures
        is_fixed_sqrt(r, a),
{
    FixedSqrt::sqrt(U64F64::from_bits(a)).to_bits()
}

/// Relies on the `Display` impl of `fixed` for decimal text.
#[verifier::external_body]
fn fixed_to_decimal(a: u128) -> (r: String)
    ensures
        r@ == decimal_of(a),
{
    U64F64::from_bits(a).to_string()
}

/// An unsigned fixed-point number with 64 integer and 64 fractional bits.
#[derive(Clone, Copy, Debug, PartialEq, Eq, Structural, PartialOrd, Ord, Hash)]
pub struct FixedPoint {
    pub bits: u128,
}

impl FixedPoint {
    pub fn from_bits(bits: u128) -> (r: FixedPoint)
        ensures
            r.bits == bits,
    {
        FixedPoint { bits }
    }

    pub fn to_bits(&self) -> (r: u128)
        ensures
            r == self.bits,
    {
        self.bits
    }

    pub fn zero() -> (r: FixedPoint)
        ensures
            r.bits == 0,
    {
        FixedPoint { bits: 0 }
    }

    pub fn one() -> (r: FixedPoint)
        ensures
            r.bits == ONE_BITS,
    {
        FixedPoint { bits: ONE_BITS }
    }

    /// The value of an integer.
    pub fn from_int(n: u64) -> (r: FixedPoint)
        ensures
            r.bits == n * ONE_BITS,
    {
        FixedPoint { bits: (n as u128) * ONE_BITS }
    }

    pub fn is_zero(&self) -> (r: bool)
        ensures
            r == (self.bits == 0),
    {
        self.bits == 0
    }

    pub fn lt(&self, rhs: &FixedPoint) -> (r: bool)
        ensures
            r == (self.bits < rhs.bits),
    {
        self.bits < rhs.bits
    }

    pub fn saturating_add(self, rhs: FixedPoint) -> (r: FixedPoint)
        ensures
            r.bits == spec_add(self.bits, rhs.bits),
    {
        FixedPoint { bits: self.bits.saturating_add(rhs.bits) }
    }

    pub fn saturating_sub(self, rhs: FixedPoint) -> (r: FixedPoint)
        ensures
            r.bits == spec_sub(self.bits, rhs.bits),
    {
        if self.bits >= rhs.bits {
            FixedPoint { bits: self.bits - rhs.bits }
        } else {
            FixedPoint { bits: 0 }
        }
    }

    pub fn saturating_mul(self, rhs: FixedPoint) -> (r: FixedPoint)
        ensures
            r.bits == spec_mul(self.bits, rhs.bits),
    {
        FixedPoint { bits: fixed_saturating_mul(self.bits, rhs.bits) }
    }

    pub fn saturating_div(self, rhs: FixedPoint) -> (r: FixedPoint)
        requires
            rhs.bits > 0,
        ensures
            r.bits == spec_div(self.bits, rhs.bits),
    {
        FixedPoint { bits: fixed_saturating_div(self.bits, rhs.bits) }
    }

    pub fn saturating_mul_int(self, n: u128) -> (r: FixedPoint)
        ensures
            r.bits == spec_mul_int(self.bits, n),
    {
        if n == 0 || self.bits <= u128::MAX / n {
            proof {
                if n > 0 {
                    assert(self.bits * n <= u128::MAX) by (nonlinear_arith)
                        requires
                            n > 0,
                            self.bits <= u128::MAX / n,
                    ;
                }
            }
            FixedPoint { bits: self.bits * n }
        } else {
            proof {
                assert(self.bits * n > u128::MAX) by (nonlinear_arith)
                    requires
                        n > 0,
                        self.bits > u128::MAX / n,
                ;
            }
            FixedPoint { bits: u128::MAX }
        }
    }

    /// Division by a non-zero integer, truncating.
    pub fn div_int(self, n: u128) -> (r: FixedPoint)
        requires
            n > 0,
        ensures
            r.bits == self.bits / n,
    {
        FixedPoint { bits: self.bits / n }
    }

    pub fn min(self, rhs: FixedPoint) -> (r: FixedPoint)
        ensures
            r.bits == spec_min(self.bits, rhs.bits),
    {
        if self.bits <= rhs.bits {
            self
        } else {
            rhs
        }
    }

    pub fn max(self, rhs: FixedPoint) -> (r: FixedPoint)
        ensures
            r.bits == spec_max(self.bits, rhs.bits),
    {
        if self.bits >= rhs.bits {
            self
        } else {
            rhs
        }
    }

    pub fn sqrt(self) -> (r: FixedPoint)
        ensures
            is_fixed_sqrt(r.bits, self.bits),
            r.bits == fixed_sqrt_of(self.bits),
    {
        let bits = fixed_sqrt(self.bits);
        proof {
            lemma_fixed_sqrt_of(bits, self.bits);
        }
        FixedPoint { bits }
    }

    /// Decimal text of the value.
    pub fn to_decimal_string(&self) -> (r: String)
        ensures
            r@ == decimal_of(self.bits),
    {
        fixed_to_decimal(self.bits)
    }
}

} // verus!
