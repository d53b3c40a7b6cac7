use vstd::prelude::*;

verus! {

/// One code point of a string, with the index of the first font of the set
/// that can render it (`None` when none can) and its advance in that font.
#[derive(Clone, Copy, Debug, PartialEq, Eq, Structural)]
pub struct Glyph {
    pub ch: char,
    pub font: Option<usize>,
    pub adv: u16,
}

/// A glyph run: the glyphs `start..end` rendered with font `font`, starting
/// `x` pixels after the pen's origin.
#[derive(Clone, Copy, Debug, PartialEq, Eq, Structural)]
pub struct Run {
    pub font: usize,
    pub start: usize,
    pub end: usize,
    pub x: u32,
}

/// Where a left-to-right layout stands after some prefix of a string:
/// the pen offset, the runs already finished, the run being extended,
/// and whether the width limit has been reached.
pub struct LayoutState {
    pub width: int,
    pub closed: Seq<Run>,
    pub open: Option<Run>,
    pub stopped: bool,
}

/// Whether `g` can be drawn by one of the `nf` fonts of the set.
pub open spec fn usable(g: Glyph, nf: nat) -> bool {
    g.font is Some && g.font->0 < nf
}

/// Finishes the run being extended, if any, at glyph index `end`.
pub open spec fn close_run(closed: Seq<Run>, open: Option<Run>, end: int) -> Seq<Run> {
    match open {
        Some(o) => closed.push(Run { font: o.font, start: o.start, end: end as usize, x: o.x }),
        None => closed,
    }
}

/// Advances the layout over glyph `g` at index `i`: a glyph no font can draw
/// ends the current run and is skipped; a glyph that would pass the limit
/// `lim` ends the layout; any other glyph extends the current run when it
/// uses the same font, or starts a new run at the pen position.
pub open spec fn step(st: LayoutState, i: int, g: Glyph, nf: nat, lim: int) -> LayoutState {
    if st.stopped {
        st
    } else if !usable(g, nf) {
        LayoutState { width: st.width, closed: close_run(st.closed, st.open, i), open: None, stopped: false }
    } else if st.width + g.adv > lim {
        LayoutState { width: st.width, closed: close_run(st.closed, st.open, i), open: None, stopped: true }
    } else if st.open is Some && st.open->0.font == g.font->0 {
        LayoutState { width: st.width + g.adv, closed: st.closed, open: st.open, stopped: false }
    } else {
        LayoutState {
            width: st.width + g.adv,
            closed: close_run(st.closed, st.open, i),
            open: Some(Run { font: g.font->0, start: i as usize, end: i as usize, x: st.width as u32 }),
            stopped: false,
        }
    }
}

/// The layout state after all glyphs of `gs`, starting from an empty pen.
pub open spec fn lay(gs: Seq<Glyph>, nf: nat, lim: int) -> LayoutState
    decreases gs.len(),
{
    if gs.len() == 0 {
        LayoutState { width: 0, closed: Seq::empty(), open: None, stopped: false }
    } else {
        step(lay(gs.drop_last(), nf, lim), gs.len() - 1, gs.last(), nf, lim)
    }
}

/// The glyph runs of `gs` laid out within `lim` pixels.
pub open spec fn runs_of(gs: Seq<Glyph>, nf: nat, lim: int) -> Seq<Run> {
    close_run(lay(gs, nf, lim).closed, lay(gs, nf, lim).open, gs.len() as int)
}

/// The pixel width taken by the glyphs of `gs` laid out within `lim` pixels.
pub open spec fn width_of(gs: Seq<Glyph>, nf: nat, lim: int) -> int {
    lay(gs, nf, lim).width
}

/// The summed advance of every glyph of `gs` that some font can draw.
pub open spec fn total_adv(gs: Seq<Glyph>, nf: nat) -> int
    decreases gs.len(),
{
    if gs.len() == 0 {
        0
    } else {
        total_adv(gs.drop_last(), nf) + if usable(gs.last(), nf) { gs.last().adv as int } else { 0 }
    }
}

/// Splits `glyphs` into runs of one font each, from left to right, stopping
/// before the first drawable glyph that would take the width past `lim`.
/// Returns the runs and the width they take.
pub fn lay_out(glyphs: &Vec<Glyph>, nf: usize, lim: u32) -> (r: (Vec<Run>, u32))
    ensures
        r.0@ == runs_of(glyphs@, nf as nat, lim as int),
        r.1 as int == width_of(glyphs@, nf as nat, lim as int),
        forall|k: int| 0 <= k < r.0@.len() ==> r.0@[k].font < nf,
        runs_fit(r.0@, glyphs@),
{
    let n = glyphs.len();
    let mut closed: Vec<Run> = Vec::new();
    let mut open: Option<Run> = None;
    let mut width: u32 = 0;
    let mut stopped = false;
    let mut i: usize = 0;
    while i < n
        invariant
            n == glyphs@.len(),
            i <= n,
            width <= lim,
            lay(glyphs@.take(i as int), nf as nat, lim as int) == (LayoutState {
                width: width as int,
                closed: closed@,
                open,
                stopped,
            }),
            forall|k: int| 0 <= k < closed@.len() ==> closed@[k].font < nf,
            open is Some ==> open->0.font < nf,
        decreases n - i,
    {
        let g = glyphs[i];
        proof {
            let pre = glyphs@.take(i as int + 1);
            assert(pre.drop_last() =~= glyphs@.take(i as int));
            assert(pre.last() == g);
        }
        if !stopped {
            let drawable = match g.font {
                Some(f) => f < nf,
                None => false,
            };
            if !drawable {
                if let Some(o) = open {
                    closed.push(Run { font: o.font, start: o.start, end: i, x: o.x });
                }
                open = None;
            } else if width as u64 + g.adv as u64 > lim as u64 {
                if let Some(o) = open {
                    closed.push(Run { font: o.font, start: o.start, end: i, x: o.x });
                }
                open = None;
                stopped = true;
            } else {
                let f = g.font.unwrap();
                let same = match open {
                    Some(o) => o.font == f,
                    None => false,
                };
                if !same {
                    if let Some(o) = open {
                        closed.push(Run { font: o.font, start: o.start, end: i, x: o.x });
                    }
                    open = Some(Run { font: f, start: i, end: i, x: width });
                }
                width = width + g.adv as u32;
            }
        }
        i = i + 1;
    }
    proof {
        assert(glyphs@.take(n as int) =~= glyphs@);
        lemma_runs_fit(glyphs@, nf as nat, lim as int);
    }
    if let Some(o) = open {
        closed.push(Run { font: o.font, start: o.start, end: n, x: o.x });
    }
    (closed, width)
}

/// Picks the font for one code point: `support[i]` tells whether font `i`
/// of the set can render it, and fonts are tried in order.
pub fn pick_font(support: &Vec<bool>, nf: usize) -> (r: Option<usize>)
    ensures
        r is Some <==> exists|i: int| 0 <= i < nf && i < support@.len() && support@[i],
        r is Some ==> {
            &&& r->0 < nf
            &&& r->0 < support@.len()
            &&& support@[r->0 as int]
            &&& forall|j: int| 0 <= j < r->0 ==> !support@[j]
        },
{
    let mut i: usize = 0;
    while i < support.len() && i < nf
        invariant
            i <= support@.len(),
            forall|j: int| 0 <= j < i ==> !support@[j],
        decreases support@.len() - i,
    {
        if support[i] {
            return Some(i);
        }
        i = i + 1;
    }
    None
}

/// When every glyph that some font can draw fits within the limit, the
/// layout stops nowhere and its width is the sum of those glyphs' advances,
/// whichever font of the set each one uses.
pub proof fn lemma_full_width(gs: Seq<Glyph>, nf: nat, lim: int)
    requires
        total_adv(gs, nf) <= lim,
    ensures
        width_of(gs, nf, lim) == total_adv(gs, nf),
        !lay(gs, nf, lim).stopped,
    decreases gs.len(),
{
    if gs.len() > 0 {
        lemma_total_nonneg(gs.drop_last(), nf);
        lemma_full_width(gs.drop_last(), nf, lim);
    }
}

/// The summed advance of a string is never negative.
pub proof fn lemma_total_nonneg(gs: Seq<Glyph>, nf: nat)
    ensures
        total_adv(gs, nf) >= 0,
    decreases gs.len(),
{
    if gs.len() > 0 {
        lemma_total_nonneg(gs.drop_last(), nf);
    }
}

/// When the primary font can draw every glyph, each run uses the primary
/// font and no fallback font is consulted.
pub proof fn lemma_primary_only(gs: Seq<Glyph>, nf: nat, lim: int)
    requires
        nf > 0,
        forall|k: int| 0 <= k < gs.len() ==> gs[k].font == Some(0usize),
    ensures
        forall|k: int| 0 <= k < runs_of(gs, nf, lim).len() ==> runs_of(gs, nf, lim)[k].font == 0,
{
    lemma_primary_state(gs, nf, lim);
}

proof fn lemma_primary_state(gs: Seq<Glyph>, nf: nat, lim: int)
    requires
        nf > 0,
        forall|k: int| 0 <= k < gs.len() ==> gs[k].font == Some(0usize),
    ensures
        forall|k: int| 0 <= k < lay(gs, nf, lim).closed.len() ==> lay(gs, nf, lim).closed[k].font == 0,
        lay(gs, nf, lim).open is Some ==> lay(gs, nf, lim).open->0.font == 0,
    decreases gs.len(),
{
    if gs.len() > 0 {
        lemma_primary_state(gs.drop_last(), nf, lim);
        assert(gs.last() == gs[gs.len() - 1]);
    }
}

/// Run `r` covers a non-empty stretch of `gs`, every glyph of which uses the run's font.
pub open spec fn run_fits(r: Run, gs: Seq<Glyph>) -> bool {
    &&& r.start < r.end <= gs.len()
    &&& forall|j: int| r.start <= j < r.end ==> gs[j].font == Some(r.font)
}

/// Runs `rs` each fit `gs`, and follow one another without overlapping.
pub open spec fn runs_fit(rs: Seq<Run>, gs: Seq<Glyph>) -> bool {
    &&& forall|k: int| 0 <= k < rs.len() ==> run_fits(#[trigger] rs[k], gs)
    &&& forall|k: int| 0 <= k < rs.len() - 1 ==> rs[k].end <= #[trigger] rs[k + 1].start
}

proof fn lemma_state_fits(gs: Seq<Glyph>, nf: nat, lim: int)
    requires
        gs.len() <= usize::MAX,
    ensures
        runs_fit(close_run(lay(gs, nf, lim).closed, lay(gs, nf, lim).open, gs.len() as int), gs),
        lay(gs, nf, lim).open is Some ==> lay(gs, nf, lim).open->0.start < gs.len(),
        lay(gs, nf, lim).stopped ==> lay(gs, nf, lim).open is None,
    decreases gs.len(),
{
    if gs.len() > 0 {
        let pre = gs.drop_last();
        let i = gs.len() - 1;
        lemma_state_fits(pre, nf, lim);
        let st = lay(pre, nf, lim);
        let c = close_run(st.closed, st.open, i);
        assert forall|k: int| 0 <= k < c.len() implies run_fits(#[trigger] c[k], gs) by {
            assert(run_fits(c[k], pre));
            assert forall|j: int| c[k].start <= j < c[k].end implies gs[j].font == Some(c[k].font) by {
                assert(gs[j] == pre[j]);
            }
        }
        let g = gs.last();
        if !st.stopped && usable(g, nf) && st.width + g.adv <= lim && st.open is Some && st.open->0.font
            == g.font->0 {
            let o = st.open->0;
            let c2 = close_run(st.closed, st.open, i + 1);
            assert(c2 =~= st.closed.push(Run { font: o.font, start: o.start, end: (i + 1) as usize, x: o.x }));
            assert(c2.len() == c.len());
            assert forall|k: int| 0 <= k < c2.len() implies run_fits(#[trigger] c2[k], gs) by {
                if k < c2.len() - 1 {
                    assert(c2[k] == c[k]);
                } else {
                    assert(c[k].start == o.start && c[k].end == i);
                    assert forall|j: int| o.start <= j < i + 1 implies gs[j].font == Some(o.font) by {
                        if j < i {
                            assert(run_fits(c[k], pre));
                            assert(gs[j] == pre[j]);
                        }
                    }
                }
            }
            assert forall|k: int| 0 <= k < c2.len() - 1 implies c2[k].end <= #[trigger] c2[k + 1].start by {
                assert(c[k].end <= c[k + 1].start);
            }
        } else if !st.stopped && usable(g, nf) && st.width + g.adv <= lim {
            let n = Run { end: (i + 1) as usize, ..step(st, i, g, nf, lim).open->0 };
            let c2 = c.push(n);
            assert(close_run(c, Some(n), i + 1) =~= c2);
            assert forall|k: int| 0 <= k < c2.len() implies run_fits(#[trigger] c2[k], gs) by {
                if k < c.len() {
                    assert(c2[k] == c[k]);
                }
            }
            assert forall|k: int| 0 <= k < c2.len() - 1 implies c2[k].end <= #[trigger] c2[k + 1].start by {
                if k < c.len() - 1 {
                    assert(c[k].end <= c[k + 1].start);
                }
            }
        } else {
            assert forall|k: int| 0 <= k < c.len() - 1 implies c[k].end <= #[trigger] c[k + 1].start by {
                assert(c[k].end <= c[k + 1].start);
            }
        }
    }
}

/// Each glyph run of a layout is a non-empty stretch of consecutive code
/// points that all use the run's font, and the runs come in string order
/// without overlapping.
pub proof fn lemma_runs_fit(gs: Seq<Glyph>, nf: nat, lim: int)
    requires
        gs.len() <= usize::MAX,
    ensures
        runs_fit(runs_of(gs, nf, lim), gs),
{
    lemma_state_fits(gs, nf, lim);
}

} // verus!
