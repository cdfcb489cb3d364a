//! The simplification adapter's conversion protocol: a path becomes a flat
//! verb buffer and a parallel point buffer for the path-boolean backend,
//! and a result comes back the same way and is walked verb by verb,
//! consuming the right number of points for each. A backend that produces
//! no usable result leaves the original path untouched.

use vstd::prelude::*;

use crate::path::{PathCmd, PathPoint, Paths};

verus! {

/// Verb code that opens a subpath, consuming one point.
pub const VERB_MOVE: u8 = 0;

/// Verb code of a straight segment, consuming one point.
pub const VERB_LINE: u8 = 1;

/// Verb code of a quadratic segment, consuming two points.
pub const VERB_QUAD: u8 = 2;

/// Verb code of a cubic segment, consuming three points.
pub const VERB_CUBIC: u8 = 4;

/// Verb code that closes a subpath, consuming no point.
pub const VERB_CLOSE: u8 = 5;

/// The verb code of one command.
pub open spec fn verb_of(c: PathCmd) -> u8 {
    match c {
        PathCmd::MoveTo(_) => VERB_MOVE,
        PathCmd::LineTo(_) => VERB_LINE,
        PathCmd::QuadTo(_, _) => VERB_QUAD,
        PathCmd::CubicTo(_, _, _) => VERB_CUBIC,
        PathCmd::Close => VERB_CLOSE,
    }
}

/// The points one command contributes to the point buffer, in order.
pub open spec fn points_of_cmd(c: PathCmd) -> Seq<PathPoint> {
    match c {
        PathCmd::MoveTo(p) => seq![p],
        PathCmd::LineTo(p) => seq![p],
        PathCmd::QuadTo(c1, p) => seq![c1, p],
        PathCmd::CubicTo(c1, c2, p) => seq![c1, c2, p],
        PathCmd::Close => Seq::empty(),
    }
}

/// The verb buffer of a command list.
pub open spec fn verbs_of(cmds: Seq<PathCmd>) -> Seq<u8>
    decreases cmds.len(),
{
    if cmds.len() == 0 {
        Seq::empty()
    } else {
        seq![verb_of(cmds[0])] + verbs_of(cmds.subrange(1, cmds.len() as int))
    }
}

/// The point buffer of a command list.
pub open spec fn points_of(cmds: Seq<PathCmd>) -> Seq<PathPoint>
    decreases cmds.len(),
{
    if cmds.len() == 0 {
        Seq::empty()
    } else {
        points_of_cmd(cmds[0]) + points_of(cmds.subrange(1, cmds.len() as int))
    }
}

/// How many points one verb consumes; verbs this library does not emit
/// consume none and decode to nothing.
pub open spec fn points_needed_by(v: u8) -> int {
    if v == VERB_MOVE || v == VERB_LINE {
        1
    } else if v == VERB_QUAD {
        2
    } else if v == VERB_CUBIC {
        3
    } else {
        0
    }
}

/// How many points a verb buffer consumes in all.
pub open spec fn points_needed(verbs: Seq<u8>) -> int
    decreases verbs.len(),
{
    if verbs.len() == 0 {
        0int
    } else {
        points_needed_by(verbs[0]) + points_needed(verbs.subrange(1, verbs.len() as int))
    }
}

/// The command list read back from a verb buffer, taking points from `pts`
/// starting at index `i`; unknown verbs are skipped.
pub open spec fn decoded_from(verbs: Seq<u8>, pts: Seq<PathPoint>, i: int) -> Seq<PathCmd>
    decreases verbs.len(),
{
    if verbs.len() == 0 {
        Seq::empty()
    } else {
        let v = verbs[0];
        let rest = verbs.subrange(1, verbs.len() as int);
        if v == VERB_MOVE {
            seq![PathCmd::MoveTo(pts[i])] + decoded_from(rest, pts, i + 1)
        } else if v == VERB_LINE {
            seq![PathCmd::LineTo(pts[i])] + decoded_from(rest, pts, i + 1)
        } else if v == VERB_QUAD {
            seq![PathCmd::QuadTo(pts[i], pts[i + 1])] + decoded_from(rest, pts, i + 2)
        } else if v == VERB_CUBIC {
            seq![PathCmd::CubicTo(pts[i], pts[i + 1], pts[i + 2])] + decoded_from(rest, pts, i + 3)
        } else if v == VERB_CLOSE {
            seq![PathCmd::Close] + decoded_from(rest, pts, i)
        } else {
            decoded_from(rest, pts, i)
        }
    }
}

/// The command list read back from a verb buffer and a point buffer.
pub open spec fn decoded(verbs: Seq<u8>, pts: Seq<PathPoint>) -> Seq<PathCmd> {
    decoded_from(verbs, pts, 0)
}

/// Converts a path to the backend's flat verb and point buffers.
pub fn path_to_buffers(path: &Paths) -> (r: (Vec<u8>, Vec<PathPoint>))
    ensures
        r.0@ == verbs_of(path@),
        r.1@ == points_of(path@),
{
    let mut verbs: Vec<u8> = Vec::new();
    let mut pts: Vec<PathPoint> = Vec::new();
    let mut i: usize = 0;
    proof {
        assert(path@.subrange(0, path@.len() as int) =~= path@);
        assert(Seq::<u8>::empty() + verbs_of(path@) =~= verbs_of(path@));
        assert(Seq::<PathPoint>::empty() + points_of(path@) =~= points_of(path@));
    }
    while i < path.cmds.len()
        invariant
            0 <= i <= path@.len(),
            verbs_of(path@) == verbs@ + verbs_of(path@.subrange(i as int, path@.len() as int)),
            points_of(path@) == pts@ + points_of(path@.subrange(i as int, path@.len() as int)),
        decreases path@.len() - i,
    {
        let ghost rem = path@.subrange(i as int, path@.len() as int);
        let ghost tail = path@.subrange(i as int + 1, path@.len() as int);
        proof {
            assert(rem[0] == path@[i as int]);
            assert(rem.subrange(1, rem.len() as int) =~= tail);
        }
        let c = path.cmds[i];
        match c {
            PathCmd::MoveTo(p) => {
                verbs.push(VERB_MOVE);
                pts.push(p);
            }
            PathCmd::LineTo(p) => {
                verbs.push(VERB_LINE);
                pts.push(p);
            }
            PathCmd::QuadTo(c1, p) => {
                verbs.push(VERB_QUAD);
                pts.push(c1);
                pts.push(p);
            }
            PathCmd::CubicTo(c1, c2, p) => {
                verbs.push(VERB_CUBIC);
                pts.push(c1);
                pts.push(c2);
                pts.push(p);
            }
            PathCmd::Close => {
                verbs.push(VERB_CLOSE);
            }
        }
        proof {
            assert(verbs_of(path@) =~= verbs@ + verbs_of(tail));
            assert(points_of(path@) =~= pts@ + points_of(tail));
        }
        i = i + 1;
    }
    proof {
        assert(path@.subrange(path@.len() as int, path@.len() as int) =~= Seq::<
            PathCmd,
        >::empty());
        assert(verbs@ + Seq::<u8>::empty() =~= verbs@);
        assert(pts@ + Seq::<PathPoint>::empty() =~= pts@);
    }
    (verbs, pts)
}

proof fn lemma_points_needed_nonneg(verbs: Seq<u8>)
    ensures
        points_needed(verbs) >= 0,
    decreases verbs.len(),
{
    if verbs.len() > 0 {
        lemma_points_needed_nonneg(verbs.subrange(1, verbs.len() as int));
    }
}

/// Reads a backend result back into a path: `None` exactly when the verb
/// buffer asks for more points than the point buffer holds.
pub fn buffers_to_path(verbs: &Vec<u8>, pts: &Vec<PathPoint>) -> (r: Option<Paths>)
    ensures
        match r {
            Some(p) => p@ == decoded(verbs@, pts@) && points_needed(verbs@) <= pts@.len(),
            None => points_needed(verbs@) > pts@.len(),
        },
{
    let mut out: Vec<PathCmd> = Vec::new();
    let mut i: usize = 0;
    let mut j: usize = 0;
    proof {
        assert(verbs@.subrange(0, verbs@.len() as int) =~= verbs@);
        assert(Seq::<PathCmd>::empty() + decoded_from(verbs@, pts@, 0) =~= decoded(
            verbs@,
            pts@,
        ));
    }
    while j < verbs.len()
        invariant
            0 <= j <= verbs@.len(),
            0 <= i <= pts@.len(),
            decoded(verbs@, pts@) == out@ + decoded_from(
                verbs@.subrange(j as int, verbs@.len() as int),
                pts@,
                i as int,
            ),
            points_needed(verbs@) == i + points_needed(
                verbs@.subrange(j as int, verbs@.len() as int),
            ),
        decreases verbs@.len() - j,
    {
        let ghost rem = verbs@.subrange(j as int, verbs@.len() as int);
        let ghost tail = verbs@.subrange(j as int + 1, verbs@.len() as int);
        proof {
            assert(rem[0] == verbs@[j as int]);
            assert(rem.subrange(1, rem.len() as int) =~= tail);
            lemma_points_needed_nonneg(tail);
        }
        let v = verbs[j];
        if v == VERB_MOVE || v == VERB_LINE {
            if pts.len() - i < 1 {
                return None;
            }
            if v == VERB_MOVE {
                out.push(PathCmd::MoveTo(pts[i]));
            } else {
                out.push(PathCmd::LineTo(pts[i]));
            }
            i = i + 1;
        } else if v == VERB_QUAD {
            if pts.len() - i < 2 {
                return None;
            }
            out.push(PathCmd::QuadTo(pts[i], pts[i + 1]));
            i = i + 2;
        } else if v == VERB_CUBIC {
            if pts.len() - i < 3 {
                return None;
            }
            out.push(PathCmd::CubicTo(pts[i], pts[i + 1], pts[i + 2]));
            i = i + 3;
        } else if v == VERB_CLOSE {
            out.push(PathCmd::Close);
        }
        proof {
            assert(decoded(verbs@, pts@) =~= out@ + decoded_from(tail, pts@, i as int));
        }
        j = j + 1;
    }
    proof {
        assert(verbs@.subrange(verbs@.len() as int, verbs@.len() as int) =~= Seq::<u8>::empty());
        assert(out@ + Seq::<PathCmd>::empty() =~= out@);
    }
    Some(Paths { cmds: out })
}

proof fn lemma_points_counted(cmds: Seq<PathCmd>)
    ensures
        points_needed(verbs_of(cmds)) == points_of(cmds).len(),
    decreases cmds.len(),
{
    if cmds.len() > 0 {
        let rest = cmds.subrange(1, cmds.len() as int);
        lemma_points_counted(rest);
        assert(verbs_of(cmds).subrange(1, verbs_of(cmds).len() as int) =~= verbs_of(rest));
    }
}

proof fn lemma_decoded_from_encoded(cmds: Seq<PathCmd>, pts: Seq<PathPoint>, i: int)
    requires
        0 <= i,
        i + points_of(cmds).len() <= pts.len(),
        pts.subrange(i, i + points_of(cmds).len() as int) == points_of(cmds),
    ensures
        decoded_from(verbs_of(cmds), pts, i) == cmds,
    decreases cmds.len(),
{
    if cmds.len() > 0 {
        let c = cmds[0];
        let rest = cmds.subrange(1, cmds.len() as int);
        let k = points_of_cmd(c).len() as int;
        assert(points_of(cmds) == points_of_cmd(c) + points_of(rest));
        assert(verbs_of(cmds).subrange(1, verbs_of(cmds).len() as int) =~= verbs_of(rest));
        assert forall|m: int| 0 <= m < k implies pts[i + m] == points_of_cmd(c)[m] by {
            assert(pts.subrange(i, i + points_of(cmds).len() as int)[m] == pts[i + m]);
            assert((points_of_cmd(c) + points_of(rest))[m] == points_of_cmd(c)[m]);
        }
        assert(pts.subrange(i + k, i + k + points_of(rest).len() as int) =~= points_of(rest)) by {
            let whole = pts.subrange(i, i + points_of(cmds).len() as int);
            assert forall|m: int| 0 <= m < points_of(rest).len() implies pts.subrange(
                i + k,
                i + k + points_of(rest).len() as int,
            )[m] == points_of(rest)[m] by {
                assert(whole[k + m] == pts[i + k + m]);
                assert((points_of_cmd(c) + points_of(rest))[k + m] == points_of(rest)[m]);
            }
        }
        lemma_decoded_from_encoded(rest, pts, i + k);
        assert(verbs_of(cmds)[0] == verb_of(c));
        assert(points_needed_by(verb_of(c)) == k);
        assert(k >= 1 ==> pts[i] == points_of_cmd(c)[0]);
        assert(k >= 2 ==> pts[i + 1] == points_of_cmd(c)[1]);
        assert(k >= 3 ==> pts[i + 2] == points_of_cmd(c)[2]);
        assert(cmds =~= seq![c] + rest);
        assert(decoded_from(verbs_of(cmds), pts, i) =~= cmds);
    }
}

/// Law: converting a path to the backend's buffers and reading the buffers
/// back, without invoking simplification, reproduces the path exactly, and
/// the verb buffer asks for exactly the points the point buffer holds.
pub proof fn lemma_buffer_round_trip(cmds: Seq<PathCmd>)
    ensures
        decoded(verbs_of(cmds), points_of(cmds)) == cmds,
        points_needed(verbs_of(cmds)) == points_of(cmds).len(),
{
    lemma_points_counted(cmds);
    assert(points_of(cmds).subrange(0, points_of(cmds).len() as int) =~= points_of(cmds));
    lemma_decoded_from_encoded(cmds, points_of(cmds), 0);
}

/// Whether a backend result can replace a drawing: its points suffice for
/// its verbs and the decoded commands again form a drawing (empty or
/// opening with a move command).
pub open spec fn usable_backend_result(verbs: Seq<u8>, pts: Seq<PathPoint>) -> bool {
    &&& points_needed(verbs) <= pts.len()
    &&& (decoded(verbs, pts).len() == 0 || decoded(verbs, pts)[0] is MoveTo)
}

/// The path the adapter hands on, given the backend's outcome.
pub open spec fn simplified_spec(
    original: Seq<PathCmd>,
    backend: Option<(Seq<u8>, Seq<PathPoint>)>,
) -> Seq<PathCmd> {
    match backend {
        Some(b) => if usable_backend_result(b.0, b.1) {
            decoded(b.0, b.1)
        } else {
            original
        },
        None => original,
    }
}

fn copy_cmds(src: &Vec<PathCmd>) -> (r: Vec<PathCmd>)
    ensures
        r@ == src@,
{
    let mut out: Vec<PathCmd> = Vec::new();
    let mut i: usize = 0;
    while i < src.len()
        invariant
            0 <= i <= src@.len(),
            out@ == src@.take(i as int),
        decreases src@.len() - i,
    {
        assert(src@.take(i as int + 1).drop_last() =~= src@.take(i as int));
        out.push(src[i]);
        i = i + 1;
    }
    assert(src@.take(src@.len() as int) =~= src@);
    out
}

/// Applies the backend's outcome: the decoded result when it is usable,
/// the original path unchanged otherwise — simplification is best-effort
/// and never fatal.
pub fn simplified_or_original(
    original: &Paths,
    backend: Option<(Vec<u8>, Vec<PathPoint>)>,
) -> (r: Paths)
    ensures
        r@ == simplified_spec(
            original@,
            match backend {
                Some(b) => Some((b.0@, b.1@)),
                None => None,
            },
        ),
{
    match backend {
        Some((verbs, pts)) => {
            match buffers_to_path(&verbs, &pts) {
                Some(p) => {
                    if p.cmds.len() == 0 {
                        p
                    } else if matches!(p.cmds[0], PathCmd::MoveTo(_)) {
                        p
                    } else {
                        Paths { cmds: copy_cmds(&original.cmds) }
                    }
                }
                None => Paths { cmds: copy_cmds(&original.cmds) },
            }
        }
        None => Paths { cmds: copy_cmds(&original.cmds) },
    }
}

} // verus!
