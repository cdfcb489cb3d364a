//! Segments: the straight, quadratic and cubic pieces of geometry between
//! consecutive anchor points of one subpath, and the curve measurements
//! (curvature, tangent, arc length) that the roughness metric samples,
//! delegated to kurbo behind trusted wrappers.

use vstd::prelude::*;

use crate::path::{PathCmd, PathPoint};
use kurbo::{ParamCurve, ParamCurveArclen, ParamCurveCurvature, ParamCurveDeriv};

verus! {

/// One path segment, tagged by kind and carrying its control points.
#[derive(Clone, Copy, PartialEq, Eq, Structural, Debug)]
pub enum Seg {
    Line(PathPoint, PathPoint),
    Quad(PathPoint, PathPoint, PathPoint),
    Cubic(PathPoint, PathPoint, PathPoint, PathPoint),
}

impl Seg {
    /// The control polygon as plain coordinate bit pairs; its length tells
    /// the segment kind apart.
    pub open spec fn ctrl(self) -> Seq<(u64, u64)> {
        match self {
            Seg::Line(p0, p1) => seq![(p0.x, p0.y), (p1.x, p1.y)],
            Seg::Quad(p0, p1, p2) => seq![(p0.x, p0.y), (p1.x, p1.y), (p2.x, p2.y)],
            Seg::Cubic(p0, p1, p2, p3) => seq![
                (p0.x, p0.y),
                (p1.x, p1.y),
                (p2.x, p2.y),
                (p3.x, p3.y),
            ],
        }
    }
}

/// The segments drawn by a command list, threading the current point and
/// the subpath's start point: a move resets both; a close draws the line
/// back to the start unless the pen already stands there.
pub open spec fn segs_from(cmds: Seq<PathCmd>, start: PathPoint, last: PathPoint) -> Seq<Seg>
    decreases cmds.len(),
{
    if cmds.len() == 0 {
        Seq::empty()
    } else {
        let rest = cmds.subrange(1, cmds.len() as int);
        match cmds[0] {
            PathCmd::MoveTo(p) => segs_from(rest, p, p),
            PathCmd::LineTo(p) => seq![Seg::Line(last, p)] + segs_from(rest, start, p),
            PathCmd::QuadTo(c, p) => seq![Seg::Quad(last, c, p)] + segs_from(rest, start, p),
            PathCmd::CubicTo(c0, c1, p) => seq![Seg::Cubic(last, c0, c1, p)] + segs_from(
                rest,
                start,
                p,
            ),
            PathCmd::Close => if last == start {
                segs_from(rest, start, start)
            } else {
                seq![Seg::Line(last, start)] + segs_from(rest, start, start)
            },
        }
    }
}

/// The segments of a command list that opens with a move command (the pen
/// rests at the origin until the first move).
pub open spec fn segments_of(cmds: Seq<PathCmd>) -> Seq<Seg> {
    segs_from(cmds, PathPoint { x: 0, y: 0 }, PathPoint { x: 0, y: 0 })
}

/// Collects the segments of one subpath's command list.
pub fn segments(cmds: &Vec<PathCmd>) -> (r: Vec<Seg>)
    ensures
        r@ == segments_of(cmds@),
{
    let mut out: Vec<Seg> = Vec::new();
    let mut start = PathPoint { x: 0, y: 0 };
    let mut last = PathPoint { x: 0, y: 0 };
    let mut i: usize = 0;
    proof {
        assert(cmds@.subrange(0, cmds@.len() as int) =~= cmds@);
        assert(Seq::<Seg>::empty() + segments_of(cmds@) =~= segments_of(cmds@));
    }
    while i < cmds.len()
        invariant
            0 <= i <= cmds@.len(),
            segments_of(cmds@) == out@ + segs_from(
                cmds@.subrange(i as int, cmds@.len() as int),
                start,
                last,
            ),
        decreases cmds@.len() - i,
    {
        let ghost rem = cmds@.subrange(i as int, cmds@.len() as int);
        let ghost tail = cmds@.subrange(i as int + 1, cmds@.len() as int);
        proof {
            assert(rem[0] == cmds@[i as int]);
            assert(rem.subrange(1, rem.len() as int) =~= tail);
        }
        let c = cmds[i];
        match c {
            PathCmd::MoveTo(p) => {
                proof {
                    assert(segs_from(rem, start, last) == segs_from(tail, p, p));
                }
                start = p;
                last = p;
            }
            PathCmd::LineTo(p) => {
                proof {
                    assert(out@ + segs_from(rem, start, last) =~= out@.push(Seg::Line(last, p))
                        + segs_from(tail, start, p));
                }
                out.push(Seg::Line(last, p));
                last = p;
            }
            PathCmd::QuadTo(cp, p) => {
                proof {
                    assert(out@ + segs_from(rem, start, last) =~= out@.push(Seg::Quad(last, cp, p))
                        + segs_from(tail, start, p));
                }
                out.push(Seg::Quad(last, cp, p));
                last = p;
            }
            PathCmd::CubicTo(c0, c1, p) => {
                proof {
                    assert(out@ + segs_from(rem, start, last) =~= out@.push(
                        Seg::Cubic(last, c0, c1, p),
                    ) + segs_from(tail, start, p));
                }
                out.push(Seg::Cubic(last, c0, c1, p));
                last = p;
            }
            PathCmd::Close => {
                if !(last == start) {
                    proof {
                        assert(out@ + segs_from(rem, start, last) =~= out@.push(
                            Seg::Line(last, start),
                        ) + segs_from(tail, start, start));
                    }
                    out.push(Seg::Line(last, start));
                } else {
                    proof {
                        assert(segs_from(rem, start, last) == segs_from(tail, start, start));
                    }
                }
                last = start;
            }
        }
        i = i + 1;
    }
    proof {
        assert(cmds@.subrange(cmds@.len() as int, cmds@.len() as int) =~= Seq::<
            PathCmd,
        >::empty());
        assert(out@ =~= out@ + Seq::<Seg>::empty());
    }
    out
}

/// The signed curvature, at normalized parameter `t` (a double's bits), of
/// the segment with the given control polygon.
pub uninterp spec fn curvature_bits(ctrl: Seq<(u64, u64)>, t: u64) -> u64;

/// The tangent (first-derivative) vector, at normalized parameter `t`, of
/// the segment with the given control polygon: both components as bits.
pub uninterp spec fn tangent_bits(ctrl: Seq<(u64, u64)>, t: u64) -> (u64, u64);

/// The arc length, integrated to the given accuracy (a double's bits), of
/// the segment with the given control polygon.
pub uninterp spec fn arclen_bits(ctrl: Seq<(u64, u64)>, accuracy: u64) -> u64;

/// The dot product of two vectors given as coordinate bit pairs.
pub uninterp spec fn dot_bits(a: (u64, u64), b: (u64, u64)) -> u64;

/// The Euclidean length of a vector given as a coordinate bit pair.
pub uninterp spec fn length_bits(a: (u64, u64)) -> u64;

/// Relies on `kurbo::Point::new`: carries a coordinate bit pair into kurbo
/// unchanged, via `bytemuck::cast` of each coordinate.
#[verifier::external_body]
fn kurbo_point(p: &PathPoint) -> kurbo::Point {
    kurbo::Point::new(bytemuck::cast(p.x), bytemuck::cast(p.y))
}

/// Relies on the `kurbo::Line`, `kurbo::QuadBez` and `kurbo::CubicBez`
/// constructors: moves the control points over, one arm per kind.
#[verifier::external_body]
fn kurbo_seg(s: &Seg) -> kurbo::PathSeg {
    match s {
        Seg::Line(p0, p1) => kurbo::PathSeg::Line(kurbo::Line::new(kurbo_point(p0), kurbo_point(p1))),
        Seg::Quad(p0, p1, p2) => kurbo::PathSeg::Quad(
            kurbo::QuadBez::new(kurbo_point(p0), kurbo_point(p1), kurbo_point(p2)),
        ),
        Seg::Cubic(p0, p1, p2, p3) => kurbo::PathSeg::Cubic(
            kurbo::CubicBez::new(kurbo_point(p0), kurbo_point(p1), kurbo_point(p2), kurbo_point(p3)),
        ),
    }
}

/// Relies on kurbo's `ParamCurveCurvature::curvature` for each segment
/// kind: the signed curvature at `t`, a function of the control points and
/// `t` alone.
#[verifier::external_body]
pub(crate) fn seg_curvature(s: &Seg, t: u64) -> (r: u64)
    ensures
        r == curvature_bits(s.ctrl(), t),
{
    match kurbo_seg(s) {
        kurbo::PathSeg::Line(l) => l.curvature(bytemuck::cast(t)),
        kurbo::PathSeg::Quad(q) => q.curvature(bytemuck::cast(t)),
        kurbo::PathSeg::Cubic(c) => c.curvature(bytemuck::cast(t)),
    }.to_bits()
}

/// Relies on kurbo's `ParamCurveDeriv::deriv` and `ParamCurve::eval` for
/// each segment kind: the velocity vector at `t`, a function of the
/// control points and `t` alone.
#[verifier::external_body]
pub(crate) fn seg_tangent(s: &Seg, t: u64) -> (r: (u64, u64))
    ensures
        r == tangent_bits(s.ctrl(), t),
{
    let v = match kurbo_seg(s) {
        kurbo::PathSeg::Line(l) => l.deriv().eval(bytemuck::cast(t)),
        kurbo::PathSeg::Quad(q) => q.deriv().eval(bytemuck::cast(t)),
        kurbo::PathSeg::Cubic(c) => c.deriv().eval(bytemuck::cast(t)),
    }.to_vec2();
    (v.x.to_bits(), v.y.to_bits())
}

/// Relies on kurbo's `ParamCurveArclen::arclen` for `kurbo::PathSeg`: the
/// arc length to the given accuracy, a function of the control points and
/// the accuracy alone.
#[verifier::external_body]
pub(crate) fn seg_arclen(s: &Seg, accuracy: u64) -> (r: u64)
    ensures
        r == arclen_bits(s.ctrl(), accuracy),
{
    kurbo_seg(s).arclen(bytemuck::cast(accuracy)).to_bits()
}

/// Relies on `kurbo::Vec2::dot`: the dot product is a function of the two
/// coordinate bit pairs alone.
#[verifier::external_body]
pub(crate) fn vec_dot(a: (u64, u64), b: (u64, u64)) -> (r: u64)
    ensures
        r == dot_bits(a, b),
{
    let va = kurbo::Vec2::new(bytemuck::cast(a.0), bytemuck::cast(a.1));
    let vb = kurbo::Vec2::new(bytemuck::cast(b.0), bytemuck::cast(b.1));
    va.dot(vb).to_bits()
}

/// Relies on `kurbo::Vec2::length`: the magnitude is a function of the
/// coordinate bit pair alone.
#[verifier::external_body]
pub(crate) fn vec_length(a: (u64, u64)) -> (r: u64)
    ensures
        r == length_bits(a),
{
    let va = kurbo::Vec2::new(bytemuck::cast(a.0), bytemuck::cast(a.1));
    va.length().to_bits()
}

} // verus!
