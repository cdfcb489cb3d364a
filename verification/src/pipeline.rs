//! The comparison pipeline: score a drawing, apply the backend's
//! simplification outcome, score the result, and report the percentage
//! increase when it exceeds the tolerance ratio.

use vstd::prelude::*;

use crate::backend::{simplified_or_original, simplified_spec};
use crate::dbl::{
    add_bits, dbl_add, dbl_div, dbl_gt, dbl_mul, dbl_sub, div_bits, gt_bits, mul_bits, sub_bits,
    HUNDRED_BITS, ONE_BITS, ZERO_BITS,
};
use crate::path::{PathPoint, Paths};
use crate::wonkiness::total_wonkiness;

verus! {

/// The reported increase for a pair of scores under a tolerance ratio:
/// zero unless the after-score exceeds the before-score scaled by one plus
/// the tolerance; otherwise the relative increase as a percentage. A
/// before-score of zero makes any positive after-score exceed the bound,
/// so such a regression is always reported (as the double division turns
/// out, an unbounded value).
pub open spec fn compare_spec(before: u64, after: u64, tolerance: u64) -> u64 {
    if gt_bits(after, mul_bits(before, add_bits(ONE_BITS, tolerance))) {
        mul_bits(sub_bits(div_bits(after, before), ONE_BITS), HUNDRED_BITS)
    } else {
        ZERO_BITS
    }
}

/// Compares a before- and an after-score under a tolerance ratio and
/// returns the reported percentage increase, zero when within tolerance.
pub fn compare_scores(before: u64, after: u64, tolerance: u64) -> (r: u64)
    ensures
        r == compare_spec(before, after, tolerance),
{
    if dbl_gt(after, dbl_mul(before, dbl_add(ONE_BITS, tolerance))) {
        dbl_mul(dbl_sub(dbl_div(after, before), ONE_BITS), HUNDRED_BITS)
    } else {
        ZERO_BITS
    }
}

/// Bits of the double 1000.0: the anomaly cutoff above which a reported
/// increase is treated as a measurement artifact and suppressed.
pub const THOUSAND_BITS: u64 = 0x408F_4000_0000_0000;

/// Whether a reported increase is printed: strictly positive and strictly
/// below the anomaly cutoff.
pub open spec fn reportable_spec(increase: u64) -> bool {
    gt_bits(increase, ZERO_BITS) && gt_bits(THOUSAND_BITS, increase)
}

/// Decides whether a comparison outcome is worth printing.
pub fn reportable(increase: u64) -> (r: bool)
    ensures
        r == reportable_spec(increase),
{
    dbl_gt(increase, ZERO_BITS) && dbl_gt(THOUSAND_BITS, increase)
}

/// Runs the whole comparison for one drawing: roughness before, the
/// backend outcome applied, roughness after, and the two scores compared
/// under the tolerance ratio.
pub fn compare_paths(
    path: &Paths,
    backend: Option<(Vec<u8>, Vec<PathPoint>)>,
    tolerance: u64,
) -> (r: u64)
    requires
        path@.len() == 0 || path@[0] is MoveTo,
    ensures
        ({
            let simplified = simplified_spec(
                path@,
                match backend {
                    Some(b) => Some((b.0@, b.1@)),
                    None => None,
                },
            );
            r == compare_spec(
                total_wonkiness(path@),
                total_wonkiness(simplified),
                tolerance,
            )
        }),
{
    let before = path.wonkiness();
    let simplified = simplified_or_original(path, backend);
    let after = simplified.wonkiness();
    compare_scores(before, after, tolerance)
}

} // verus!
