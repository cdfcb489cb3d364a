//! The roughness ("wonkiness") metric: a non-negative score that sums, over
//! the junctions of consecutive non-degenerate segments of a subpath, a
//! penalty for tangent directions that deviate from the nearest straight or
//! right-angle continuation, amplified by curvature mismatch and by short
//! segment lengths.

use vstd::prelude::*;

use crate::dbl::{
    abs_bits, acos_bits, add_bits, dbl_abs, dbl_acos, dbl_add, dbl_div, dbl_gt, dbl_mul,
    dbl_round, dbl_sub, div_bits, gt_bits, mul_bits, round_bits, sub_bits, HALF_PI_BITS, ONE_BITS,
    ZERO_BITS,
};
use crate::path::{split_subpaths, PathCmd, Paths};
use crate::segment::{
    arclen_bits, curvature_bits, dot_bits, length_bits, seg_arclen, seg_curvature, seg_tangent,
    segments, segments_of, tangent_bits, vec_dot, vec_length, Seg,
};

verus! {

/// Bits of the double 0.95: where the incoming segment of a junction is
/// sampled, near its end.
pub const T_INCOMING: u64 = 0x3FEE_6666_6666_6666;

/// Bits of the double 0.05: where the outgoing segment of a junction is
/// sampled, near its start.
pub const T_OUTGOING: u64 = 0x3FA9_9999_9999_999A;

/// Bits of the double 0.1: the absolute accuracy of arc-length integration.
pub const ARC_ACCURACY: u64 = 0x3FB9_9999_9999_999A;

/// The angle, in radians within [0, pi], between two vectors: the arc
/// cosine of their normalized dot product.
pub open spec fn angle_between_spec(v1: (u64, u64), v2: (u64, u64)) -> u64 {
    acos_bits(div_bits(dot_bits(v1, v2), mul_bits(length_bits(v1), length_bits(v2))))
}

/// The angle between two vectors given as coordinate bit pairs.
pub fn angle_between(v1: (u64, u64), v2: (u64, u64)) -> (r: u64)
    ensures
        r == angle_between_spec(v1, v2),
{
    let dot = vec_dot(v1, v2);
    let len_product = dbl_mul(vec_length(v1), vec_length(v2));
    dbl_acos(dbl_div(dot, len_product))
}

/// Whether a segment carries geometric information: its arc length is
/// strictly positive.
pub open spec fn is_live(s: Seg) -> bool {
    gt_bits(arclen_bits(s.ctrl(), ARC_ACCURACY), ZERO_BITS)
}

/// The non-degenerate segments of a run, in order.
pub open spec fn live_segments(segs: Seq<Seg>) -> Seq<Seg>
    decreases segs.len(),
{
    if segs.len() == 0 {
        Seq::empty()
    } else if is_live(segs.last()) {
        live_segments(segs.drop_last()).push(segs.last())
    } else {
        live_segments(segs.drop_last())
    }
}

/// The contribution of one junction, given the control polygons of its
/// incoming and outgoing segments: the angular deviation of the outgoing
/// from the incoming tangent, measured from the nearest multiple of a
/// right angle, divided by the two arc lengths together and scaled up by
/// one plus the curvature mismatch.
pub open spec fn junction_spec(a: Seq<(u64, u64)>, b: Seq<(u64, u64)>) -> u64 {
    let curvature_diff = abs_bits(
        sub_bits(curvature_bits(a, T_INCOMING), curvature_bits(b, T_OUTGOING)),
    );
    let angle = angle_between_spec(tangent_bits(b, T_OUTGOING), tangent_bits(a, T_INCOMING));
    let deviation = abs_bits(
        sub_bits(angle, mul_bits(round_bits(div_bits(angle, HALF_PI_BITS)), HALF_PI_BITS)),
    );
    let total_len = add_bits(arclen_bits(a, ARC_ACCURACY), arclen_bits(b, ARC_ACCURACY));
    mul_bits(add_bits(ONE_BITS, curvature_diff), div_bits(deviation, total_len))
}

/// Computes one junction's contribution to the roughness of a subpath.
pub fn junction_contribution(incoming: &Seg, outgoing: &Seg) -> (r: u64)
    ensures
        r == junction_spec(incoming.ctrl(), outgoing.ctrl()),
{
    let in_curvature = seg_curvature(incoming, T_INCOMING);
    let out_curvature = seg_curvature(outgoing, T_OUTGOING);
    let curvature_diff = dbl_abs(dbl_sub(in_curvature, out_curvature));
    let in_tangent = seg_tangent(incoming, T_INCOMING);
    let out_tangent = seg_tangent(outgoing, T_OUTGOING);
    let angle = angle_between(out_tangent, in_tangent);
    let deviation = dbl_abs(
        dbl_sub(angle, dbl_mul(dbl_round(dbl_div(angle, HALF_PI_BITS)), HALF_PI_BITS)),
    );
    let total_len = dbl_add(
        seg_arclen(incoming, ARC_ACCURACY),
        seg_arclen(outgoing, ARC_ACCURACY),
    );
    dbl_mul(dbl_add(ONE_BITS, curvature_diff), dbl_div(deviation, total_len))
}

/// The left-to-right sum of the first `k` junction contributions of a run
/// of segments, pairing each segment with its cyclic successor.
pub open spec fn pair_sum(segs: Seq<Seg>, k: int) -> u64
    decreases k,
{
    if k <= 0 {
        ZERO_BITS
    } else {
        add_bits(
            pair_sum(segs, k - 1),
            junction_spec(segs[k - 1].ctrl(), segs[k % segs.len() as int].ctrl()),
        )
    }
}

/// The roughness of one subpath's command list: zero when fewer than two
/// segments survive the degeneracy filter; otherwise the junction sum over
/// consecutive pairs, cyclically when the subpath is closed.
pub open spec fn subpath_wonkiness(cmds: Seq<PathCmd>) -> u64 {
    let closed = cmds.len() > 0 && cmds.last() is Close;
    let segs = live_segments(segments_of(cmds));
    if segs.len() < 2 {
        ZERO_BITS
    } else if closed {
        pair_sum(segs, segs.len() as int)
    } else {
        pair_sum(segs, segs.len() - 1)
    }
}

/// Law: a subpath with fewer than two non-degenerate segments has
/// roughness zero.
pub proof fn lemma_sparse_subpath_has_zero_roughness(cmds: Seq<PathCmd>)
    requires
        live_segments(segments_of(cmds)).len() < 2,
    ensures
        subpath_wonkiness(cmds) == ZERO_BITS,
{
}

/// Computes the roughness of one subpath.
pub fn wonkiness(path: &Paths) -> (r: u64)
    ensures
        r == subpath_wonkiness(path@),
{
    let n_cmds = path.cmds.len();
    let is_closed = n_cmds > 0 && matches!(path.cmds[n_cmds - 1], PathCmd::Close);
    let all = segments(&path.cmds);

    let mut segs: Vec<Seg> = Vec::new();
    let mut i: usize = 0;
    while i < all.len()
        invariant
            0 <= i <= all@.len(),
            all@ == segments_of(path@),
            segs@ == live_segments(all@.take(i as int)),
        decreases all@.len() - i,
    {
        proof {
            assert(all@.take(i as int + 1).drop_last() =~= all@.take(i as int));
            assert(all@.take(i as int + 1).last() == all@[i as int]);
        }
        let s = all[i];
        let len = seg_arclen(&s, ARC_ACCURACY);
        if dbl_gt(len, ZERO_BITS) {
            segs.push(s);
        }
        i = i + 1;
    }
    proof {
        assert(all@.take(all@.len() as int) =~= all@);
    }

    if segs.len() < 2 {
        return ZERO_BITS;
    }
    let n = segs.len();
    let pair_count = if is_closed {
        n
    } else {
        n - 1
    };
    let mut acc: u64 = ZERO_BITS;
    let mut k: usize = 0;
    while k < pair_count
        invariant
            0 <= k <= pair_count,
            2 <= n == segs@.len(),
            pair_count == n || pair_count == n - 1,
            acc == pair_sum(segs@, k as int),
        decreases pair_count - k,
    {
        let succ = if k + 1 == n {
            0
        } else {
            k + 1
        };
        proof {
            if k + 1 < n {
                assert((k + 1) % (n as int) == k + 1) by (nonlinear_arith)
                    requires
                        0 <= k,
                        k + 1 < n,
                ;
            } else {
                assert(k + 1 == n);
                assert((n as int) % (n as int) == 0) by (nonlinear_arith)
                    requires
                        n >= 1,
                ;
            }
        }
        let c = junction_contribution(&segs[k], &segs[succ]);
        acc = dbl_add(acc, c);
        k = k + 1;
    }
    acc
}

/// The left-to-right sum of a sequence of scores, from positive zero.
pub open spec fn fold_add(s: Seq<u64>) -> u64
    decreases s.len(),
{
    if s.len() == 0 {
        ZERO_BITS
    } else {
        add_bits(fold_add(s.drop_last()), s.last())
    }
}

/// The roughness of a whole drawing: the sum of the roughness of its
/// subpaths, in drawing order.
pub open spec fn total_wonkiness(cmds: Seq<PathCmd>) -> u64 {
    fold_add(split_subpaths(cmds).map_values(|sub: Seq<PathCmd>| subpath_wonkiness(sub)))
}

impl Paths {
    /// Computes the roughness of the accumulated drawing: splits it into
    /// subpaths and sums their scores.
    pub fn wonkiness(&self) -> (r: u64)
        requires
            self@.len() == 0 || self@[0] is MoveTo,
        ensures
            r == total_wonkiness(self@),
    {
        let subs = self.subpaths();
        let ghost mapped = split_subpaths(self@).map_values(
            |sub: Seq<PathCmd>| subpath_wonkiness(sub),
        );
        let mut acc: u64 = ZERO_BITS;
        let mut i: usize = 0;
        while i < subs.len()
            invariant
                0 <= i <= subs@.len(),
                subs@.map_values(|p: Paths| p@) == split_subpaths(self@),
                mapped == split_subpaths(self@).map_values(
                    |sub: Seq<PathCmd>| subpath_wonkiness(sub),
                ),
                mapped.len() == subs@.len(),
                acc == fold_add(mapped.take(i as int)),
            decreases subs@.len() - i,
        {
            proof {
                assert(mapped.take(i as int + 1).drop_last() =~= mapped.take(i as int));
                assert(subs@.map_values(|p: Paths| p@)[i as int] == subs@[i as int]@);
                assert(mapped[i as int] == subpath_wonkiness(subs@[i as int]@));
            }
            let w = wonkiness(&subs[i]);
            acc = dbl_add(acc, w);
            i = i + 1;
        }
        proof {
            assert(mapped.take(mapped.len() as int) =~= mapped);
        }
        acc
    }
}

} // verus!
