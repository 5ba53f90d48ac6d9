//! Signed 16.16 fixed-point numbers.
//!
//! A `Frac` holds the raw two's-complement bits of a number with 16 integer
//! and 16 fractional bits; its value is `bits / 2^16`. Arithmetic wraps on
//! overflow. Multiplication, division and conversions are carried out by the
//! `fixed` crate's `I16F16`.
use vstd::prelude::*;

verus! {

/// Reduces an integer to the `i32` it wraps to in two's complement.
pub open spec fn wrap_i32(x: int) -> int {
    let m = x % 0x1_0000_0000;
    if m > 0x7fff_ffff {
        m - 0x1_0000_0000
    } else {
        m
    }
}

/// Reduces an integer to the `i16` it wraps to in two's complement.
pub open spec fn wrap_i16(x: int) -> int {
    let m = x % 0x1_0000;
    if m > 0x7fff {
        m - 0x1_0000
    } else {
        m
    }
}

/// Integer division that rounds toward zero, as Rust's `/` does.
pub open spec fn trunc_div(x: int, y: int) -> int
    recommends
        y != 0,
{
    if x >= 0 {
        if y > 0 {
            x / y
        } else {
            -(x / (-y))
        }
    } else {
        if y > 0 {
            -((-x) / y)
        } else {
            (-x) / (-y)
        }
    }
}

/// Raw bits of the product of two 16.16 numbers: rounded toward minus
/// infinity, then wrapped.
pub open spec fn mul_bits(a: int, b: int) -> int {
    wrap_i32((a * b) / 0x1_0000)
}

/// Raw bits of the quotient of two 16.16 numbers: rounded toward zero, then
/// wrapped.
pub open spec fn div_bits(a: int, b: int) -> int
    recommends
        b != 0,
{
    wrap_i32(trunc_div(a * 0x1_0000, b))
}

/// The integer part of a 16.16 number, rounded toward minus infinity.
pub open spec fn floor_bits(a: int) -> int {
    a / 0x1_0000
}

pub proof fn lemma_wrap_i32_in_range(x: int)
    requires
        i32::MIN <= x <= i32::MAX,
    ensures
        wrap_i32(x) == x,
{
}

pub proof fn lemma_wrap_i16_in_range(x: int)
    requires
        i16::MIN <= x <= i16::MAX,
    ensures
        wrap_i16(x) == x,
{
}

/// A signed fixed-point number with 16 integer and 16 fractional bits.
#[derive(Clone, Copy, Debug, PartialEq, Eq, Structural)]
pub struct Frac {
    pub bits: i32,
}

/// Relies on `fixed::FixedI32::wrapping_from_num` from `i32`: the integer
/// shifted left by sixteen bits, wrapping.
#[verifier::external_body]
fn int_to_bits(n: i32) -> (r: i32)
    ensures
        r == wrap_i32(n * 0x1_0000),
{
    fixed::types::I16F16::wrapping_from_num(n).to_bits()
}

/// Relies on `fixed::FixedI32::wrapping_mul`: the product of the values,
/// rounded toward minus infinity, wrapping.
#[verifier::external_body]
fn mul_raw(a: i32, b: i32) -> (r: i32)
    ensures
        r == mul_bits(a as int, b as int),
{
    fixed::types::I16F16::from_bits(a).wrapping_mul(fixed::types::I16F16::from_bits(b)).to_bits()
}

/// Relies on `fixed::FixedI32::wrapping_div`: the quotient of the values,
/// rounded toward zero, wrapping; it panics on a zero divisor.
#[verifier::external_body]
fn div_raw(a: i32, b: i32) -> (r: i32)
    requires
        b != 0,
    ensures
        r == div_bits(a as int, b as int),
{
    fixed::types::I16F16::from_bits(a).wrapping_div(fixed::types::I16F16::from_bits(b)).to_bits()
}

/// Relies on `fixed::FixedI32::wrapping_mul_int`: the raw bits times the
/// integer, wrapping.
#[verifier::external_body]
fn mul_int_raw(a: i32, n: i32) -> (r: i32)
    ensures
        r == wrap_i32(a * n),
{
    fixed::types::I16F16::from_bits(a).wrapping_mul_int(n).to_bits()
}

/// Relies on `fixed::FixedI32::wrapping_to_num` into `i16`: the value
/// rounded toward minus infinity, wrapping.
#[verifier::external_body]
fn bits_to_i16(a: i32) -> (r: i16)
    ensures
        r == wrap_i16(floor_bits(a as int)),
{
    fixed::types::I16F16::from_bits(a).wrapping_to_num::<i16>()
}

/// Relies on `fixed::FixedI32::to_num` into `i32`: the value rounded toward
/// minus infinity (always in range for sixteen integer bits).
#[verifier::external_body]
fn bits_to_i32(a: i32) -> (r: i32)
    ensures
        r == floor_bits(a as int),
{
    fixed::types::I16F16::from_bits(a).to_num::<i32>()
}

impl Frac {
    pub fn zero() -> (r: Frac)
        ensures
            r.bits == 0,
    {
        Frac { bits: 0 }
    }

    pub fn from_bits(bits: i32) -> (r: Frac)
        ensures
            r.bits == bits,
    {
        Frac { bits }
    }

    /// The integer `n` as a fixed-point number (wrapping outside
    /// `[-32768, 32767]`).
    pub fn from_int(n: i32) -> (r: Frac)
        ensures
            r.bits == wrap_i32(n * 0x1_0000),
            i16::MIN <= n <= i16::MAX ==> r.bits == n * 0x1_0000,
    {
        let bits = int_to_bits(n);
        proof {
            if i16::MIN <= n <= i16::MAX {
                assert(i32::MIN <= n * 0x1_0000 <= i32::MAX) by (nonlinear_arith)
                    requires
                        i16::MIN <= n <= i16::MAX,
                ;
                lemma_wrap_i32_in_range(n * 0x1_0000);
            }
        }
        Frac { bits }
    }

    pub fn add(self, rhs: Frac) -> (r: Frac)
        ensures
            r.bits == wrap_i32(self.bits + rhs.bits),
    {
        Frac { bits: self.bits.wrapping_add(rhs.bits) }
    }

    pub fn sub(self, rhs: Frac) -> (r: Frac)
        ensures
            r.bits == wrap_i32(self.bits - rhs.bits),
    {
        Frac { bits: self.bits.wrapping_sub(rhs.bits) }
    }

    pub fn mul(self, rhs: Frac) -> (r: Frac)
        ensures
            r.bits == mul_bits(self.bits as int, rhs.bits as int),
    {
        Frac { bits: mul_raw(self.bits, rhs.bits) }
    }

    pub fn div(self, rhs: Frac) -> (r: Frac)
        requires
            rhs.bits != 0,
        ensures
            r.bits == div_bits(self.bits as int, rhs.bits as int),
    {
        Frac { bits: div_raw(self.bits, rhs.bits) }
    }

    /// Multiplies by an integer.
    pub fn mul_int(self, n: i32) -> (r: Frac)
        ensures
            r.bits == wrap_i32(self.bits * n),
    {
        Frac { bits: mul_int_raw(self.bits, n) }
    }

    /// The integer part (rounded toward minus infinity), wrapped into `i16`.
    pub fn to_i16(self) -> (r: i16)
        ensures
            r == wrap_i16(floor_bits(self.bits as int)),
    {
        bits_to_i16(self.bits)
    }

    /// The integer part, rounded toward minus infinity.
    pub fn to_i32(self) -> (r: i32)
        ensures
            r == floor_bits(self.bits as int),
    {
        bits_to_i32(self.bits)
    }
}

} // verus!
