//! Scalar scores and coordinates travel through this library as the bit
//! patterns of IEEE-754 doubles, held in `u64` values. The verified code
//! never looks inside a bit pattern: every arithmetic step is delegated to
//! the machine's double arithmetic behind a trusted wrapper, and the result
//! of each operation is given a name that the contracts compose.

use vstd::prelude::*;

verus! {

/// Bit pattern of the double +0.0.
pub const ZERO_BITS: u64 = 0;

/// Bit pattern of the double 1.0.
pub const ONE_BITS: u64 = 0x3FF0_0000_0000_0000;

/// Bit pattern of the double 100.0.
pub const HUNDRED_BITS: u64 = 0x4059_0000_0000_0000;

/// Bit pattern of the double nearest to half of pi, the right angle that
/// junction deviations are measured against.
pub const HALF_PI_BITS: u64 = 0x3FF9_21FB_5444_2D18;

/// The double sum of the doubles with bit patterns `a` and `b`.
pub uninterp spec fn add_bits(a: u64, b: u64) -> u64;

/// The double difference of the doubles with bit patterns `a` and `b`.
pub uninterp spec fn sub_bits(a: u64, b: u64) -> u64;

/// The double product of the doubles with bit patterns `a` and `b`.
pub uninterp spec fn mul_bits(a: u64, b: u64) -> u64;

/// The double quotient of the doubles with bit patterns `a` and `b`.
pub uninterp spec fn div_bits(a: u64, b: u64) -> u64;

/// The absolute value of the double with bit pattern `a`.
pub uninterp spec fn abs_bits(a: u64) -> u64;

/// The arc cosine, in radians, of the double with bit pattern `a`.
pub uninterp spec fn acos_bits(a: u64) -> u64;

/// The double with bit pattern `a` rounded to the nearest integer,
/// ties away from zero.
pub uninterp spec fn round_bits(a: u64) -> u64;

/// Whether the double with bit pattern `a` compares strictly greater than
/// the one with bit pattern `b`.
pub uninterp spec fn gt_bits(a: u64, b: u64) -> bool;

/// Relies on Rust's `+` on doubles (IEEE-754 addition): the sum is a
/// function of the operand bit patterns alone. `bytemuck::cast` turns each
/// operand into the double with that bit pattern; a `kurbo::Vec2` carries
/// the pair.
#[verifier::external_body]
pub(crate) fn dbl_add(a: u64, b: u64) -> (r: u64)
    ensures
        r == add_bits(a, b),
{
    let v = kurbo::Vec2::new(bytemuck::cast(a), bytemuck::cast(b));
    (v.x + v.y).to_bits()
}

/// Relies on Rust's `-` on doubles (IEEE-754 subtraction), via
/// `bytemuck::cast` of each operand as in `dbl_add`.
#[verifier::external_body]
pub(crate) fn dbl_sub(a: u64, b: u64) -> (r: u64)
    ensures
        r == sub_bits(a, b),
{
    let v = kurbo::Vec2::new(bytemuck::cast(a), bytemuck::cast(b));
    (v.x - v.y).to_bits()
}

/// Relies on Rust's `*` on doubles (IEEE-754 multiplication), via
/// `bytemuck::cast` of each operand as in `dbl_add`.
#[verifier::external_body]
pub(crate) fn dbl_mul(a: u64, b: u64) -> (r: u64)
    ensures
        r == mul_bits(a, b),
{
    let v = kurbo::Vec2::new(bytemuck::cast(a), bytemuck::cast(b));
    (v.x * v.y).to_bits()
}

/// Relies on Rust's `/` on doubles (IEEE-754 division), via
/// `bytemuck::cast` of each operand as in `dbl_add`.
#[verifier::external_body]
pub(crate) fn dbl_div(a: u64, b: u64) -> (r: u64)
    ensures
        r == div_bits(a, b),
{
    let v = kurbo::Vec2::new(bytemuck::cast(a), bytemuck::cast(b));
    (v.x / v.y).to_bits()
}

/// Relies on the standard library's absolute value of a double, via
/// `bytemuck::cast` of the operand as in `dbl_add`.
#[verifier::external_body]
pub(crate) fn dbl_abs(a: u64) -> (r: u64)
    ensures
        r == abs_bits(a),
{
    let v = kurbo::Vec2::new(bytemuck::cast(a), bytemuck::cast(a));
    v.x.abs().to_bits()
}

/// Relies on the standard library's arc cosine of a double, via
/// `bytemuck::cast` of the operand as in `dbl_add`.
#[verifier::external_body]
pub(crate) fn dbl_acos(a: u64) -> (r: u64)
    ensures
        r == acos_bits(a),
{
    let v = kurbo::Vec2::new(bytemuck::cast(a), bytemuck::cast(a));
    v.x.acos().to_bits()
}

/// Relies on the standard library's rounding of a double to the nearest
/// integer, via `bytemuck::cast` of the operand as in `dbl_add`.
#[verifier::external_body]
pub(crate) fn dbl_round(a: u64) -> (r: u64)
    ensures
        r == round_bits(a),
{
    let v = kurbo::Vec2::new(bytemuck::cast(a), bytemuck::cast(a));
    v.x.round().to_bits()
}

/// Relies on Rust's `>` on doubles (IEEE-754 ordered comparison), via
/// `bytemuck::cast` of each operand as in `dbl_add`.
#[verifier::external_body]
pub(crate) fn dbl_gt(a: u64, b: u64) -> (r: bool)
    ensures
        r == gt_bits(a, b),
{
    let v = kurbo::Vec2::new(bytemuck::cast(a), bytemuck::cast(b));
    v.x > v.y
}

} // verus!
