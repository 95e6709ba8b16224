//! Unsigned 32-bit fixed-point arithmetic on raw bit patterns.
//!
//! A fixed-point number is a `u32` bit pattern together with a scale, the
//! number of units in 1.0: the pattern `b` at scale `s` stands for `b / s`.
//! Every operation rounds towards zero unless its name says otherwise, and
//! reports a result that does not fit in 32 bits as `None`. On the same bit
//! patterns the operations give what the `fixed` crate's `FixedU32` gives,
//! and the square root is that crate's.

use fixed::types::extra::U32;
use fixed::FixedU32;
use vstd::prelude::*;

verus! {

/// Scale of the format with 20 integer and 12 fractional bits, in which
/// delays are stored.
pub const Q12: u64 = 0x1000;

/// Scale of the format with 14 integer and 18 fractional bits.
pub const Q18: u64 = 0x4_0000;

/// Scale of the format with 32 fractional bits and no integer bits.
pub const Q32: u64 = 0x1_0000_0000;

/// The circle constant at scale `Q12`, rounded down.
pub const PI_Q12: u32 = 12867;

/// The circle constant at scale `Q18`, rounded down.
pub const PI_Q18: u32 = 823549;

/// A scale is a positive number of units that itself fits in 33 bits.
pub open spec fn is_scale(scale: int) -> bool {
    1 <= scale <= 0x1_0000_0000
}

/// The pattern of the whole number `n`.
pub open spec fn int_bits(n: int, scale: int) -> int {
    n * scale
}

/// The pattern of the product of two numbers of the same scale.
pub open spec fn mul_bits(a: int, b: int, scale: int) -> int {
    (a * b) / scale
}

/// The pattern of the quotient of two numbers of the same scale.
pub open spec fn div_bits(a: int, b: int, scale: int) -> int {
    (a * scale) / b
}

/// The pattern of the same number at another scale, rounded down.
pub open spec fn rescale_bits(a: int, from: int, to: int) -> int {
    (a * to) / from
}

/// The pattern of the same number at another scale, rounded to the nearest
/// pattern, halves upwards.
pub open spec fn rescale_nearest_bits(a: int, from: int, to: int) -> int {
    (a * to + from / 2) / from
}

/// `root` is the square root of `x`, rounded down.
pub open spec fn is_floor_sqrt(root: int, x: int) -> bool {
    0 <= root && root * root <= x < (root + 1) * (root + 1)
}

/// The square root of `x`, rounded down.
pub open spec fn floor_sqrt(x: int) -> int {
    choose|root: int| is_floor_sqrt(root, x)
}

/// Only one number is the rounded-down square root of another.
pub proof fn lemma_floor_sqrt_unique(root: int, x: int)
    requires
        is_floor_sqrt(root, x),
    ensures
        floor_sqrt(x) == root,
{
    let other = floor_sqrt(x);
    assert(is_floor_sqrt(other, x));
    assert(other == root) by (nonlinear_arith)
        requires
            0 <= root,
            0 <= other,
            root * root <= x < (root + 1) * (root + 1),
            other * other <= x < (other + 1) * (other + 1),
    ;
}

proof fn lemma_product_fits(a: u32, b: u64)
    requires
        b <= 0x1_0000_0000,
    ensures
        0 <= a * b <= 0xffff_ffff_0000_0000,
{
    assert(0 <= a * b <= 0xffff_ffff_0000_0000) by (nonlinear_arith)
        requires
            0 <= a <= 0xffff_ffff,
            0 <= b <= 0x1_0000_0000,
    ;
}

/// The whole number `n` at the given scale, or `None` if it is too large.
pub fn from_int(n: u32, scale: u64) -> (r: Option<u32>)
    requires
        is_scale(scale as int),
    ensures
        r is Some <==> int_bits(n as int, scale as int) <= u32::MAX,
        r matches Some(bits) ==> bits == int_bits(n as int, scale as int),
{
    proof {
        lemma_product_fits(n, scale);
    }
    let wide: u64 = n as u64 * scale;
    if wide <= u32::MAX as u64 {
        Some(wide as u32)
    } else {
        None
    }
}

/// The whole part of a number.
pub fn to_int(bits: u32, scale: u64) -> (n: u32)
    requires
        is_scale(scale as int),
    ensures
        n == bits as int / scale as int,
{
    let wide: u64 = bits as u64 / scale;
    assert(wide <= bits) by (nonlinear_arith)
        requires
            wide == bits as int / scale as int,
            scale >= 1,
            bits >= 0,
    ;
    wide as u32
}

/// The product of two numbers of the same scale, or `None` if it is too
/// large.
pub fn checked_mul(a: u32, b: u32, scale: u64) -> (r: Option<u32>)
    requires
        is_scale(scale as int),
    ensures
        r is Some <==> mul_bits(a as int, b as int, scale as int) <= u32::MAX,
        r matches Some(bits) ==> bits == mul_bits(a as int, b as int, scale as int),
{
    proof {
        lemma_product_fits(a, b as u64);
    }
    let wide: u64 = (a as u64 * b as u64) / scale;
    if wide <= u32::MAX as u64 {
        Some(wide as u32)
    } else {
        None
    }
}

/// The quotient of two numbers of the same scale, or `None` if the divisor
/// is zero or the quotient is too large.
pub fn checked_div(a: u32, b: u32, scale: u64) -> (r: Option<u32>)
    requires
        is_scale(scale as int),
    ensures
        r is Some <==> b != 0 && div_bits(a as int, b as int, scale as int) <= u32::MAX,
        r matches Some(bits) ==> bits == div_bits(a as int, b as int, scale as int),
{
    if b == 0 {
        return None;
    }
    proof {
        lemma_product_fits(a, scale);
    }
    let wide: u64 = (a as u64 * scale) / (b as u64);
    if wide <= u32::MAX as u64 {
        Some(wide as u32)
    } else {
        None
    }
}

/// The same number at another scale, rounded down, or `None` if it is too
/// large for the new scale.
pub fn rescale(a: u32, from: u64, to: u64) -> (r: Option<u32>)
    requires
        is_scale(from as int),
        is_scale(to as int),
    ensures
        r is Some <==> rescale_bits(a as int, from as int, to as int) <= u32::MAX,
        r matches Some(bits) ==> bits == rescale_bits(a as int, from as int, to as int),
{
    proof {
        lemma_product_fits(a, to);
    }
    let wide: u64 = (a as u64 * to) / from;
    if wide <= u32::MAX as u64 {
        Some(wide as u32)
    } else {
        None
    }
}

/// The same number at another scale, rounded to the nearest pattern, or
/// `None` if it is too large for the new scale.
pub fn rescale_nearest(a: u32, from: u64, to: u64) -> (r: Option<u32>)
    requires
        is_scale(from as int),
        is_scale(to as int),
    ensures
        r is Some <==> rescale_nearest_bits(a as int, from as int, to as int) <= u32::MAX,
        r matches Some(bits) ==> bits == rescale_nearest_bits(a as int, from as int, to as int),
{
    proof {
        lemma_product_fits(a, to);
    }
    let wide: u64 = (a as u64 * to + from / 2) / from;
    if wide <= u32::MAX as u64 {
        Some(wide as u32)
    } else {
        None
    }
}

/// Calls `FixedU32::<U32>::sqrt` of the `fixed` crate on the number with
/// the given bit pattern at scale `Q32`. That method documents its result
/// as rounded down with an error below one unit of the last place: the
/// returned pattern is the largest whose square does not exceed the
/// argument, both read as numbers below one.
#[verifier::external_body]
fn fixed_u32_sqrt(bits: u32) -> (root: u32)
    ensures
        is_floor_sqrt(root as int, bits as int * 0x1_0000_0000),
{
    FixedU32::<U32>::from_bits(bits).sqrt().to_bits()
}

/// The square root of a number below one, at scale `Q32`, rounded down.
pub fn sqrt_q32(bits: u32) -> (root: u32)
    ensures
        root == floor_sqrt(bits as int * 0x1_0000_0000),
{
    let root = fixed_u32_sqrt(bits);
    proof {
        lemma_floor_sqrt_unique(root as int, bits as int * 0x1_0000_0000);
    }
    root
}

} // verus!
