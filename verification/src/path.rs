//! The path data model and the drawing sink that a glyph outline source
//! drives: move, line, quadratic, cubic and close commands accumulate into
//! an ordered command list, and an accumulated list splits into its
//! subpaths, one per leading move command.

use vstd::prelude::*;

verus! {

/// A point of the plane: the bit patterns of the IEEE doubles that hold
/// its two coordinates.
#[derive(Clone, Copy, PartialEq, Eq, Structural, Debug)]
pub struct PathPoint {
    pub x: u64,
    pub y: u64,
}

/// One drawing command of a path.
#[derive(Clone, Copy, PartialEq, Eq, Structural, Debug)]
pub enum PathCmd {
    MoveTo(PathPoint),
    LineTo(PathPoint),
    QuadTo(PathPoint, PathPoint),
    CubicTo(PathPoint, PathPoint, PathPoint),
    Close,
}

/// The drawing sink: an ordered list of commands, built incrementally
/// while a glyph outline is drawn and immutable afterwards.
#[derive(Debug)]
pub struct Paths {
    pub cmds: Vec<PathCmd>,
}

impl View for Paths {
    type V = Seq<PathCmd>;

    open spec fn view(&self) -> Seq<PathCmd> {
        self.cmds@
    }
}

impl Default for Paths {
    fn default() -> (r: Paths)
        ensures
            r@ == Seq::<PathCmd>::empty(),
    {
        Paths { cmds: Vec::new() }
    }
}

/// How one command extends a split into subpaths: a move command opens a
/// new subpath, any other command extends the last one opened.
pub open spec fn split_step(acc: Seq<Seq<PathCmd>>, c: PathCmd) -> Seq<Seq<PathCmd>> {
    match c {
        PathCmd::MoveTo(_) => acc.push(seq![c]),
        _ => acc.update(acc.len() - 1, acc.last().push(c)),
    }
}

/// The subpaths of a command list: each maximal run from one move command
/// to the next. Meaningful when the list is empty or opens with a move
/// command, as every drawn outline does.
pub open spec fn split_subpaths(cmds: Seq<PathCmd>) -> Seq<Seq<PathCmd>>
    decreases cmds.len(),
{
    if cmds.len() == 0 {
        Seq::empty()
    } else {
        split_step(split_subpaths(cmds.drop_last()), cmds.last())
    }
}

/// A drawing's split is never empty once a command was drawn.
pub proof fn lemma_split_nonempty(cmds: Seq<PathCmd>)
    requires
        cmds.len() > 0,
        cmds[0] is MoveTo,
    ensures
        split_subpaths(cmds).len() > 0,
    decreases cmds.len(),
{
    if cmds.len() > 1 {
        assert(cmds.drop_last()[0] == cmds[0]);
        lemma_split_nonempty(cmds.drop_last());
    }
}

/// Law: the subpaths of a drawing cover it exactly: concatenated in
/// order, they give back the original command list.
pub proof fn lemma_subpaths_cover_drawing(cmds: Seq<PathCmd>)
    requires
        cmds.len() == 0 || cmds[0] is MoveTo,
    ensures
        split_subpaths(cmds).flatten() == cmds,
    decreases cmds.len(),
{
    split_subpaths(cmds).lemma_flatten_and_flatten_alt_are_equivalent();
    if cmds.len() == 0 {
        assert(split_subpaths(cmds).flatten() =~= Seq::<PathCmd>::empty());
    } else {
        let butlast = cmds.drop_last();
        let c = cmds.last();
        let prev = split_subpaths(butlast);
        if cmds.len() > 1 {
            assert(butlast[0] == cmds[0]);
        }
        lemma_subpaths_cover_drawing(butlast);
        prev.lemma_flatten_and_flatten_alt_are_equivalent();
        match c {
            PathCmd::MoveTo(_) => {
                assert(prev.push(seq![c]).drop_last() =~~= prev);
                assert(split_subpaths(cmds).flatten_alt() == prev.flatten_alt() + seq![c]);
                assert(prev.flatten_alt() + seq![c] =~= butlast.push(c));
                assert(butlast.push(c) =~= cmds);
            }
            _ => {
                assert(cmds.len() > 1) by {
                    if cmds.len() == 1 {
                        assert(cmds[0] == c);
                    }
                }
                lemma_split_nonempty(butlast);
                let updated = prev.update(prev.len() - 1, prev.last().push(c));
                assert(updated.drop_last() =~~= prev.drop_last());
                assert(updated.last() == prev.last().push(c));
                assert(prev.flatten_alt() == prev.drop_last().flatten_alt() + prev.last());
                assert(updated.flatten_alt() == prev.drop_last().flatten_alt()
                    + prev.last().push(c));
                assert(prev.drop_last().flatten_alt() + prev.last().push(c) =~= (
                prev.drop_last().flatten_alt() + prev.last()).push(c));
                assert(split_subpaths(cmds).flatten_alt() =~= butlast.push(c));
                assert(butlast.push(c) =~= cmds);
            }
        }
    }
}

impl Paths {
    /// Opens a new subpath at `p`.
    pub fn move_to(&mut self, p: PathPoint)
        ensures
            final(self)@ == old(self)@.push(PathCmd::MoveTo(p)),
    {
        self.cmds.push(PathCmd::MoveTo(p));
    }

    /// Draws a straight segment to `p`.
    pub fn line_to(&mut self, p: PathPoint)
        ensures
            final(self)@ == old(self)@.push(PathCmd::LineTo(p)),
    {
        self.cmds.push(PathCmd::LineTo(p));
    }

    /// Draws a quadratic segment with control point `c` ending at `p`.
    pub fn quad_to(&mut self, c: PathPoint, p: PathPoint)
        ensures
            final(self)@ == old(self)@.push(PathCmd::QuadTo(c, p)),
    {
        self.cmds.push(PathCmd::QuadTo(c, p));
    }

    /// Draws a cubic segment with control points `c0`, `c1` ending at `p`.
    pub fn curve_to(&mut self, c0: PathPoint, c1: PathPoint, p: PathPoint)
        ensures
            final(self)@ == old(self)@.push(PathCmd::CubicTo(c0, c1, p)),
    {
        self.cmds.push(PathCmd::CubicTo(c0, c1, p));
    }

    /// Closes the current subpath.
    pub fn close(&mut self)
        ensures
            final(self)@ == old(self)@.push(PathCmd::Close),
    {
        self.cmds.push(PathCmd::Close);
    }

    /// Splits the accumulated path into independent subpaths, one per move
    /// command, in drawing order.
    pub fn subpaths(&self) -> (r: Vec<Paths>)
        requires
            self@.len() == 0 || self@[0] is MoveTo,
        ensures
            r@.map_values(|p: Paths| p@) == split_subpaths(self@),
            forall|k: int|
                0 <= k < r@.len() ==> #[trigger] r@[k]@.len() > 0 && r@[k]@[0] is MoveTo,
    {
        let ghost whole = self@;
        let mut out: Vec<Paths> = Vec::new();
        let mut cur: Vec<PathCmd> = Vec::new();
        let mut i: usize = 0;
        while i < self.cmds.len()
            invariant
                0 <= i <= whole.len(),
                whole == self@,
                whole.len() == 0 || whole[0] is MoveTo,
                i == 0 ==> out@.len() == 0 && cur@.len() == 0,
                i > 0 ==> cur@.len() > 0 && cur@[0] is MoveTo,
                i > 0 ==> out@.map_values(|p: Paths| p@).push(cur@) == split_subpaths(
                    whole.take(i as int),
                ),
                forall|k: int|
                    0 <= k < out@.len() ==> #[trigger] out@[k]@.len() > 0 && out@[k]@[0] is MoveTo,
            decreases whole.len() - i,
        {
            let c = self.cmds[i];
            assert(whole.take(i as int + 1).drop_last() =~= whole.take(i as int));
            assert(whole.take(i as int + 1).last() == c);
            match c {
                PathCmd::MoveTo(_) => {
                    proof {
                        let prev = split_subpaths(whole.take(i as int));
                        if i > 0 {
                            assert(out@.push(Paths { cmds: cur }).map_values(|p: Paths| p@)
                                =~~= prev);
                        }
                    }
                    if i > 0 {
                        let ghost cur_old = cur@;
                        out.push(Paths { cmds: cur });
                        proof {
                            assert(out@.last()@ == cur_old);
                            assert(forall|k: int|
                                0 <= k < out@.len() ==> #[trigger] out@[k]@.len() > 0
                                    && out@[k]@[0] is MoveTo);
                        }
                        cur = Vec::new();
                    }
                    cur.push(c);
                    assert(out@.map_values(|p: Paths| p@).push(cur@) =~~= split_subpaths(
                        whole.take(i as int + 1),
                    ));
                }
                _ => {
                    cur.push(c);
                    proof {
                        let prev = split_subpaths(whole.take(i as int));
                        assert(out@.map_values(|p: Paths| p@).push(cur@) =~~= split_step(
                            prev,
                            c,
                        ));
                    }
                }
            }
            i = i + 1;
        }
        assert(whole.take(whole.len() as int) =~= whole);
        if cur.len() > 0 {
            out.push(Paths { cmds: cur });
        }
        assert(out@.map_values(|p: Paths| p@) =~~= split_subpaths(whole));
        out
    }
}

} // verus!
