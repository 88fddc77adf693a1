//! Signed fixed-point numbers with 16 integer and 16 fractional bits.
//!
//! A number is held as its 32-bit two's-complement bit pattern; its value is
//! the pattern divided by 65536. The arithmetic itself is done by the
//! `fixed` crate; this module states what each operation returns.

use vstd::prelude::*;

verus! {

/// The number of patterns per unit: two to the sixteenth.
pub const ONE_BITS: i32 = 0x1_0000;

/// A fixed-point number, given by its bit pattern.
#[derive(Debug, Clone, Copy, PartialEq, Eq, Structural)]
pub struct I16F16 {
    pub bits: i32,
}

/// `v` cut to the range of a 32-bit signed pattern.
pub open spec fn sat32(v: int) -> int {
    if v < -0x8000_0000 {
        -0x8000_0000
    } else if v > 0x7fff_ffff {
        0x7fff_ffff
    } else {
        v
    }
}

/// The pattern of a saturating product: the exact product of the two values,
/// rounded down to a multiple of 1/65536, then cut to the range.
pub open spec fn mul_bits(a: int, b: int) -> int {
    sat32((a * b) / 65536)
}

/// The largest whole number that the format holds.
pub const MAX_WHOLE: usize = 32767;

impl I16F16 {
    /// The number with the given bit pattern.
    pub fn from_bits(bits: i32) -> (x: Self)
        ensures
            x.bits == bits,
    {
        I16F16 { bits }
    }

    /// The bit pattern of the number.
    pub fn to_bits(self) -> (bits: i32)
        ensures
            bits == self.bits,
    {
        self.bits
    }
}

impl Default for I16F16 {
    fn default() -> (x: Self)
        ensures
            x.bits == 0,
    {
        I16F16 { bits: 0 }
    }
}

/// The difference of two 32-bit numbers, cut to the 32-bit range.
pub fn saturating_sub_i32(a: i32, b: i32) -> (r: i32)
    ensures
        r == sat32(a - b),
{
    let wide: i64 = a as i64 - b as i64;
    if wide < i32::MIN as i64 {
        i32::MIN
    } else if wide > i32::MAX as i64 {
        i32::MAX
    } else {
        wide as i32
    }
}

/// `fixed::types::I16F16::checked_sub`: the difference of the two patterns,
/// or nothing where it leaves the 32-bit range.
#[verifier::external_body]
pub(crate) fn fixed_checked_sub(a: I16F16, b: I16F16) -> (r: Option<I16F16>)
    ensures
        sat32(a.bits - b.bits) == a.bits - b.bits ==> r == Some(I16F16 { bits: (a.bits - b.bits) as i32 }),
        sat32(a.bits - b.bits) != a.bits - b.bits ==> r is None,
{
    let lhs = fixed::types::I16F16::from_bits(a.bits);
    let rhs = fixed::types::I16F16::from_bits(b.bits);
    match lhs.checked_sub(rhs) {
        Some(x) => Some(I16F16 { bits: x.to_bits() }),
        None => None,
    }
}

/// `fixed::types::I16F16::saturating_add`: the sum of the two patterns, cut
/// to the 32-bit range.
#[verifier::external_body]
pub(crate) fn fixed_saturating_add(a: I16F16, b: I16F16) -> (r: I16F16)
    ensures
        r.bits == sat32(a.bits + b.bits),
{
    let lhs = fixed::types::I16F16::from_bits(a.bits);
    let rhs = fixed::types::I16F16::from_bits(b.bits);
    I16F16 { bits: lhs.saturating_add(rhs).to_bits() }
}

/// `fixed::types::I16F16::saturating_sub`: the difference of the two
/// patterns, cut to the 32-bit range.
#[verifier::external_body]
pub(crate) fn fixed_saturating_sub(a: I16F16, b: I16F16) -> (r: I16F16)
    ensures
        r.bits == sat32(a.bits - b.bits),
{
    let lhs = fixed::types::I16F16::from_bits(a.bits);
    let rhs = fixed::types::I16F16::from_bits(b.bits);
    I16F16 { bits: lhs.saturating_sub(rhs).to_bits() }
}

/// `fixed::types::I16F16::saturating_mul`: the product of the two patterns
/// divided by 65536 and rounded down, cut to the 32-bit range.
#[verifier::external_body]
pub(crate) fn fixed_saturating_mul(a: I16F16, b: I16F16) -> (r: I16F16)
    ensures
        r.bits == mul_bits(a.bits as int, b.bits as int),
{
    let lhs = fixed::types::I16F16::from_bits(a.bits);
    let rhs = fixed::types::I16F16::from_bits(b.bits);
    I16F16 { bits: lhs.saturating_mul(rhs).to_bits() }
}

/// `fixed::types::I16F16::from_num` on a `usize`: the whole number `n` as a
/// fixed-point number. A number that the format cannot hold is left out.
#[verifier::external_body]
pub(crate) fn fixed_from_num(n: usize) -> (r: I16F16)
    requires
        n <= MAX_WHOLE,
    ensures
        r.bits == n * 65536,
{
    I16F16 { bits: fixed::types::I16F16::from_num(n).to_bits() }
}

/// The pattern of the nearest whole number, a tie going up: for patterns
/// that are not negative.
pub open spec fn round_bits(bits: int) -> int {
    ((bits + 32768) / 65536) * 65536
}

/// `fixed::types::I16F16::round` on a number that is not negative and whose
/// rounding stays in range: the nearest whole number, a tie going up.
#[verifier::external_body]
pub(crate) fn fixed_round(x: I16F16) -> (r: I16F16)
    requires
        0 <= x.bits < 0x7fff_8000,
    ensures
        r.bits == round_bits(x.bits as int),
{
    I16F16 { bits: fixed::types::I16F16::from_bits(x.bits).round().to_bits() }
}

} // verus!
