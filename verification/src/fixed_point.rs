//! Signed fixed-point scalars with 16 integer and 16 fractional bits.
//!
//! A value is held as its raw 32-bit pattern; the number it stands for is
//! `bits / 65536`. All arithmetic wraps on overflow.

use vstd::prelude::*;

verus! {

/// Scale of the representation: the raw pattern of the number one.
pub const ONE_BITS: i32 = 0x1_0000;

/// Raw pattern of one half.
pub const HALF_BITS: i32 = 0x8000;

/// Raw pattern of one quarter.
pub const QUARTER_BITS: i32 = 0x4000;

/// Reduction of a mathematical integer to the signed 32-bit range, keeping
/// the low 32 bits (two's complement).
pub open spec fn wrap32(x: int) -> int {
    (x + 0x8000_0000) % 0x1_0000_0000 - 0x8000_0000
}

/// Quotient rounded toward zero, for a non-zero divisor.
pub open spec fn trunc_div(x: int, d: int) -> int {
    if x >= 0 && d > 0 {
        x / d
    } else if x < 0 && d > 0 {
        -((-x) / d)
    } else if x >= 0 && d < 0 {
        -(x / (-d))
    } else {
        (-x) / (-d)
    }
}

/// Raw pattern of a wrapping sum.
pub open spec fn add_bits(a: int, b: int) -> int {
    wrap32(a + b)
}

/// Raw pattern of a wrapping difference.
pub open spec fn sub_bits(a: int, b: int) -> int {
    wrap32(a - b)
}

/// Raw pattern of a wrapping product: the exact product of the two numbers,
/// rounded down to a multiple of 2^-16, then wrapped.
pub open spec fn mul_bits(a: int, b: int) -> int {
    wrap32((a * b) / 0x1_0000)
}

/// Raw pattern of a wrapping quotient: the exact quotient of the two numbers,
/// rounded toward zero to a multiple of 2^-16, then wrapped.
pub open spec fn div_bits(a: int, b: int) -> int {
    wrap32(trunc_div(a * 0x1_0000, b))
}

/// Calls `fixed::types::I16F16::wrapping_add` on the two raw patterns.
/// Claims that the result is the two's-complement sum of the patterns.
#[verifier::external_body]
fn raw_wrapping_add(a: i32, b: i32) -> (r: i32)
    ensures
        r == add_bits(a as int, b as int),
{
    ::fixed::types::I16F16::from_bits(a).wrapping_add(::fixed::types::I16F16::from_bits(b)).to_bits()
}

/// Calls `fixed::types::I16F16::wrapping_sub` on the two raw patterns.
/// Claims that the result is the two's-complement difference of the patterns.
#[verifier::external_body]
fn raw_wrapping_sub(a: i32, b: i32) -> (r: i32)
    ensures
        r == sub_bits(a as int, b as int),
{
    ::fixed::types::I16F16::from_bits(a).wrapping_sub(::fixed::types::I16F16::from_bits(b)).to_bits()
}

/// Calls `fixed::types::I16F16::wrapping_mul` on the two raw patterns.
/// Claims that the result is the 64-bit product of the patterns shifted
/// right by 16 bits (rounding down) and cut to its low 32 bits.
#[verifier::external_body]
fn raw_wrapping_mul(a: i32, b: i32) -> (r: i32)
    ensures
        r == mul_bits(a as int, b as int),
{
    ::fixed::types::I16F16::from_bits(a).wrapping_mul(::fixed::types::I16F16::from_bits(b)).to_bits()
}

/// Calls `fixed::types::I16F16::wrapping_div` on the two raw patterns.
/// Claims that the result is the dividend's pattern shifted left by 16 bits,
/// divided by the divisor's pattern with rounding toward zero, and cut to its
/// low 32 bits. The outside function panics on a zero divisor.
#[verifier::external_body]
fn raw_wrapping_div(a: i32, b: i32) -> (r: i32)
    requires
        b != 0,
    ensures
        r == div_bits(a as int, b as int),
{
    ::fixed::types::I16F16::from_bits(a).wrapping_div(::fixed::types::I16F16::from_bits(b)).to_bits()
}

/// A fixed-point number with 16 integer and 16 fractional bits.
#[derive(Debug, Clone, Copy, PartialEq, Eq, Structural)]
pub struct Fixed {
    /// Raw pattern: the number times 65536.
    pub bits: i32,
}

impl Fixed {
    /// The number zero.
    pub open spec fn spec_zero() -> Fixed {
        Fixed { bits: 0 }
    }

    /// The number one.
    pub open spec fn spec_one() -> Fixed {
        Fixed { bits: 0x1_0000 }
    }

    /// Wrapping sum, as a value.
    pub open spec fn spec_wrapping_add(self, rhs: Fixed) -> Fixed {
        Fixed { bits: add_bits(self.bits as int, rhs.bits as int) as i32 }
    }

    /// Wrapping difference, as a value.
    pub open spec fn spec_wrapping_sub(self, rhs: Fixed) -> Fixed {
        Fixed { bits: sub_bits(self.bits as int, rhs.bits as int) as i32 }
    }

    /// Wrapping product, as a value.
    pub open spec fn spec_wrapping_mul(self, rhs: Fixed) -> Fixed {
        Fixed { bits: mul_bits(self.bits as int, rhs.bits as int) as i32 }
    }

    /// Wrapping quotient, as a value.
    pub open spec fn spec_wrapping_div(self, rhs: Fixed) -> Fixed {
        Fixed { bits: div_bits(self.bits as int, rhs.bits as int) as i32 }
    }

    /// The number zero.
    pub fn zero() -> (r: Fixed)
        ensures
            r == Fixed::spec_zero(),
    {
        Fixed { bits: 0 }
    }

    /// The number one.
    pub fn one() -> (r: Fixed)
        ensures
            r == Fixed::spec_one(),
    {
        Fixed { bits: 0x1_0000 }
    }

    /// Build a number from its raw pattern.
    pub fn from_bits(bits: i32) -> (r: Fixed)
        ensures
            r.bits == bits,
    {
        Fixed { bits }
    }

    /// Raw pattern of the number.
    pub fn to_bits(self) -> (bits: i32)
        ensures
            bits == self.bits,
    {
        self.bits
    }

    /// Sum, wrapping on overflow.
    pub fn wrapping_add(self, rhs: Fixed) -> (r: Fixed)
        ensures
            r == self.spec_wrapping_add(rhs),
    {
        Fixed { bits: raw_wrapping_add(self.bits, rhs.bits) }
    }

    /// Difference, wrapping on overflow.
    pub fn wrapping_sub(self, rhs: Fixed) -> (r: Fixed)
        ensures
            r == self.spec_wrapping_sub(rhs),
    {
        Fixed { bits: raw_wrapping_sub(self.bits, rhs.bits) }
    }

    /// Product, wrapping on overflow.
    pub fn wrapping_mul(self, rhs: Fixed) -> (r: Fixed)
        ensures
            r == self.spec_wrapping_mul(rhs),
    {
        Fixed { bits: raw_wrapping_mul(self.bits, rhs.bits) }
    }

    /// Quotient, wrapping on overflow. The divisor may not be zero.
    pub fn wrapping_div(self, rhs: Fixed) -> (r: Fixed)
        requires
            rhs.bits != 0,
        ensures
            r == self.spec_wrapping_div(rhs),
    {
        Fixed { bits: raw_wrapping_div(self.bits, rhs.bits) }
    }
}

/// Multiplying by one leaves every number unchanged.
pub proof fn lemma_mul_one(a: Fixed)
    ensures
        a.spec_wrapping_mul(Fixed::spec_one()) == a,
{
    let x = a.bits as int;
    assert((x * 0x1_0000) / 0x1_0000 == x) by (nonlinear_arith);
}

} // verus!
