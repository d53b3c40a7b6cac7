use vstd::prelude::*;

use crate::color::{Clr, ClrScheme};
use crate::font::{Fnt, FontLoadError};
use crate::layout::{Glyph, Run, lay_out, runs_of, width_of};

verus! {

/// One change to the off-screen surface, in the order it is to be applied.
#[derive(Clone, Copy, Debug, PartialEq, Eq, Structural)]
#[allow(inconsistent_fields)]
pub enum DrawOp {
    /// Fill the `w` by `h` box whose top-left corner is at (`x`, `y`).
    Fill { color: Clr, x: i32, y: i32, w: u64, h: u64 },
    /// Render the code points `start..end` of the string with font `font`,
    /// the pen starting at `x` on the baseline `y`.
    Text { color: Clr, font: usize, start: usize, end: usize, x: i64, y: i64 },
}

/// One resource released when a context is torn down.
#[derive(Clone, Copy, Debug, PartialEq, Eq, Structural)]
pub enum Release {
    /// The font at this index of the font set.
    Font(usize),
    /// The graphics-context resource.
    Gc,
    /// The off-screen surface.
    Surface,
}

/// A drawing context: a `w` by `h` off-screen surface, the active color
/// scheme, the font set (index 0 tried first), and the drawing operations
/// applied to the surface and not yet handed to the display.
pub struct Drw {
    w: u32,
    h: u32,
    scheme: Option<ClrScheme>,
    fonts: Vec<Fnt>,
    ops: Vec<DrawOp>,
}

/// The fonts of the successful entries of `loaded`, in order.
pub open spec fn loaded_fonts(loaded: Seq<Result<Fnt, FontLoadError>>) -> Seq<Fnt>
    decreases loaded.len(),
{
    if loaded.len() == 0 {
        Seq::empty()
    } else {
        let rest = loaded_fonts(loaded.drop_last());
        match loaded.last() {
            Ok(f) => rest.push(f),
            Err(_) => rest,
        }
    }
}

/// The indices of the failed entries of `loaded`, in order.
pub open spec fn failed_indices(loaded: Seq<Result<Fnt, FontLoadError>>) -> Seq<usize>
    decreases loaded.len(),
{
    if loaded.len() == 0 {
        Seq::empty()
    } else {
        let rest = failed_indices(loaded.drop_last());
        match loaded.last() {
            Ok(_) => rest,
            Err(_) => rest.push((loaded.len() - 1) as usize),
        }
    }
}

/// The fill of a rectangle: a filled box takes one more pixel each way than
/// the requested extent, an unfilled one exactly the requested extent.
pub open spec fn rect_op(s: ClrScheme, x: i32, y: i32, w: u32, h: u32, filled: bool, invert: bool) -> DrawOp {
    let grow: int = if filled { 1 } else { 0 };
    DrawOp::Fill { color: s.fill_spec(invert), x, y, w: (w + grow) as u64, h: (h + grow) as u64 }
}

/// Whether the geometry asks only for a measurement.
pub open spec fn measure_only(x: i32, y: i32, w: u32, h: u32) -> bool {
    x == 0 && y == 0 && w == 0 && h == 0
}

/// The width available to text in a box of width `w` with `lpad` pixels kept
/// free at each edge; when measuring, the width is not limited by any box.
pub open spec fn text_room(x: i32, y: i32, w: u32, h: u32, lpad: u32) -> int {
    if measure_only(x, y, w, h) {
        u32::MAX as int
    } else if w >= 2 * lpad {
        w - 2 * lpad
    } else {
        0
    }
}

/// The tallest font used by `rs` (the earliest one among equals).
pub open spec fn tallest(rs: Seq<Run>, fonts: Seq<Fnt>) -> Fnt
    decreases rs.len(),
{
    if rs.len() <= 1 {
        fonts[rs[0].font as int]
    } else {
        let t = tallest(rs.drop_last(), fonts);
        let f = fonts[rs.last().font as int];
        if Fnt::height_of(f@) > Fnt::height_of(t@) { f } else { t }
    }
}

/// The baseline that centres font `t` vertically in a box at `y` of height `h`.
pub open spec fn baseline(y: i32, h: u32, t: Fnt) -> int {
    y + (h - Fnt::height_of(t@)) / 2 + t@.ascent
}

/// The rendering of run `r` with the pen's origin at `x0` and baseline `base`.
pub open spec fn run_op(r: Run, color: Clr, x0: int, base: int) -> DrawOp {
    DrawOp::Text { color, font: r.font, start: r.start, end: r.end, x: (x0 + r.x) as i64, y: base as i64 }
}

/// The renderings of the runs `rs`, in order.
pub open spec fn run_ops(rs: Seq<Run>, color: Clr, x0: int, base: int) -> Seq<DrawOp> {
    rs.map_values(|r: Run| run_op(r, color, x0, base))
}

/// The baseline of the text laid out as `rs`: centred on its tallest font.
pub open spec fn text_baseline(rs: Seq<Run>, fonts: Seq<Fnt>, y: i32, h: u32) -> int {
    if rs.len() > 0 { baseline(y, h, tallest(rs, fonts)) } else { 0 }
}

/// What drawing text adds to the surface: the box filled with the scheme's
/// fill color, then each run in the contrasting color, the pen starting
/// `lpad` pixels into the box.
pub open spec fn text_ops(
    s: ClrScheme,
    fonts: Seq<Fnt>,
    gs: Seq<Glyph>,
    x: i32,
    y: i32,
    w: u32,
    h: u32,
    lpad: u32,
    invert: bool,
) -> Seq<DrawOp> {
    let rs = runs_of(gs, fonts.len(), text_room(x, y, w, h, lpad));
    seq![DrawOp::Fill { color: s.fill_spec(invert), x, y, w: w as u64, h: h as u64 }] + run_ops(
        rs,
        s.ink_spec(invert),
        x + lpad,
        text_baseline(rs, fonts, y, h),
    )
}

/// The number of pixels an operation fills (none for text).
pub open spec fn fill_area(op: DrawOp) -> int {
    match op {
        DrawOp::Fill { w, h, .. } => w * h,
        DrawOp::Text { .. } => 0,
    }
}

/// A filled rectangle covers `(w + 1) * (h + 1)` pixels at (`x`, `y`), an
/// unfilled one `w * h`, in the fill color the scheme gives for `invert`.
pub proof fn lemma_rect_area(s: ClrScheme, x: i32, y: i32, w: u32, h: u32, filled: bool, invert: bool)
    ensures
        filled ==> fill_area(rect_op(s, x, y, w, h, filled, invert)) == (w + 1) * (h + 1),
        !filled ==> fill_area(rect_op(s, x, y, w, h, filled, invert)) == w * h,
        rect_op(s, x, y, w, h, filled, invert) matches DrawOp::Fill { color, x: rx, y: ry, .. } && color
            == s.fill_spec(invert) && rx == x && ry == y,
{
}

/// Inverting selects the scheme's background as the fill color, and not
/// inverting its foreground, both for rectangles and for the box behind text.
pub proof fn lemma_invert_selects(
    s: ClrScheme,
    fonts: Seq<Fnt>,
    gs: Seq<Glyph>,
    x: i32,
    y: i32,
    w: u32,
    h: u32,
    lpad: u32,
    filled: bool,
    invert: bool,
)
    ensures
        s.fill_spec(invert) == if invert { s.bg } else { s.fg },
        rect_op(s, x, y, w, h, filled, invert) matches DrawOp::Fill { color, .. } && color == s.fill_spec(invert),
        text_ops(s, fonts, gs, x, y, w, h, lpad, invert)[0] matches DrawOp::Fill { color, .. } && color
            == s.fill_spec(invert),
{
}

impl Drw {
    /// The surface width.
    pub closed spec fn width_spec(&self) -> u32 {
        self.w
    }

    /// The surface height.
    pub closed spec fn height_spec(&self) -> u32 {
        self.h
    }

    /// The active color scheme.
    pub closed spec fn scheme_spec(&self) -> Option<ClrScheme> {
        self.scheme
    }

    /// The font set, in fallback order.
    pub closed spec fn fonts_spec(&self) -> Seq<Fnt> {
        self.fonts@
    }

    /// The drawing operations applied to the surface since it was last flushed.
    pub closed spec fn ops_spec(&self) -> Seq<DrawOp> {
        self.ops@
    }

    /// Creates a context over a fresh `w` by `h` surface, with no active
    /// scheme and no fonts.
    pub fn new(w: u32, h: u32) -> (r: Drw)
        ensures
            r.width_spec() == w,
            r.height_spec() == h,
            r.scheme_spec() is None,
            r.fonts_spec().len() == 0,
            r.ops_spec().len() == 0,
    {
        Drw { w, h, scheme: None, fonts: Vec::new(), ops: Vec::new() }
    }

    /// Makes `scheme` the active color scheme.
    pub fn setscheme(&mut self, scheme: ClrScheme)
        ensures
            final(self).scheme_spec() == Some(scheme),
            final(self).width_spec() == old(self).width_spec(),
            final(self).height_spec() == old(self).height_spec(),
            final(self).fonts_spec() == old(self).fonts_spec(),
            final(self).ops_spec() == old(self).ops_spec(),
    {
        self.scheme = Some(scheme);
    }

    /// Replaces the surface by a fresh `w` by `h` one. The new surface has no
    /// operations and no active scheme; the font set is kept.
    pub fn resize(&mut self, w: u32, h: u32)
        ensures
            final(self).width_spec() == w,
            final(self).height_spec() == h,
            final(self).scheme_spec() is None,
            final(self).ops_spec().len() == 0,
            final(self).fonts_spec() == old(self).fonts_spec(),
    {
        self.w = w;
        self.h = h;
        self.scheme = None;
        self.ops = Vec::new();
    }

    /// Appends the fonts that loaded to the font set, in order, and returns
    /// the indices of the entries that failed, so that each can be reported.
    pub fn load_fonts(&mut self, loaded: &Vec<Result<Fnt, FontLoadError>>) -> (r: Vec<usize>)
        ensures
            final(self).fonts_spec() == old(self).fonts_spec() + loaded_fonts(loaded@),
            r@ == failed_indices(loaded@),
            final(self).width_spec() == old(self).width_spec(),
            final(self).height_spec() == old(self).height_spec(),
            final(self).scheme_spec() == old(self).scheme_spec(),
            final(self).ops_spec() == old(self).ops_spec(),
    {
        let mut failed: Vec<usize> = Vec::new();
        let mut i: usize = 0;
        while i < loaded.len()
            invariant
                i <= loaded@.len(),
                self.fonts@ == old(self).fonts@ + loaded_fonts(loaded@.take(i as int)),
                failed@ == failed_indices(loaded@.take(i as int)),
                self.w == old(self).w,
                self.h == old(self).h,
                self.scheme == old(self).scheme,
                self.ops@ == old(self).ops@,
            decreases loaded@.len() - i,
        {
            proof {
                assert(loaded@.take(i as int + 1).drop_last() =~= loaded@.take(i as int));
            }
            match &loaded[i] {
                Ok(f) => {
                    self.fonts.push(*f);
                },
                Err(_) => {
                    failed.push(i);
                },
            }
            i = i + 1;
        }
        proof {
            assert(loaded@.take(loaded@.len() as int) =~= loaded@);
        }
        failed
    }

    /// Fills a rectangle with the active scheme's fill color (the background
    /// when `invert`, else the foreground). A filled box covers one more
    /// pixel each way than `w` by `h`. Without an active scheme nothing is drawn.
    pub fn rect(&mut self, x: i32, y: i32, w: u32, h: u32, filled: bool, _empty: bool, invert: bool)
        ensures
            old(self).scheme_spec() is None ==> final(self).ops_spec() == old(self).ops_spec(),
            old(self).scheme_spec() is Some ==> final(self).ops_spec() == old(self).ops_spec().push(
                rect_op(old(self).scheme_spec()->0, x, y, w, h, filled, invert),
            ),
            final(self).width_spec() == old(self).width_spec(),
            final(self).height_spec() == old(self).height_spec(),
            final(self).scheme_spec() == old(self).scheme_spec(),
            final(self).fonts_spec() == old(self).fonts_spec(),
    {
        if let Some(s) = self.scheme {
            let color = s.fill(invert);
            let grow: u64 = if filled { 1 } else { 0 };
            self.ops.push(DrawOp::Fill { color, x, y, w: w as u64 + grow, h: h as u64 + grow });
        }
    }

    /// The width `glyphs` would take when drawn with the font set, with no box
    /// to limit it. Nothing can be measured without an active scheme or a font.
    pub fn measure(&self, glyphs: &Vec<Glyph>) -> (r: u32)
        ensures
            self.scheme_spec() is None || self.fonts_spec().len() == 0 ==> r == 0,
            self.scheme_spec() is Some && self.fonts_spec().len() > 0 ==> r == width_of(
                glyphs@,
                self.fonts_spec().len(),
                u32::MAX as int,
            ),
    {
        if self.scheme.is_none() || self.fonts.len() == 0 {
            return 0;
        }
        let (_, width) = lay_out(glyphs, self.fonts.len(), u32::MAX);
        width
    }

    /// The font of `rs` with the greatest height, the earliest among equals.
    fn tallest_font(&self, rs: &Vec<Run>) -> (r: Fnt)
        requires
            rs@.len() > 0,
            forall|k: int| 0 <= k < rs@.len() ==> rs@[k].font < self.fonts@.len(),
        ensures
            r == tallest(rs@, self.fonts@),
    {
        let mut t = self.fonts[rs[0].font];
        let mut k: usize = 1;
        while k < rs.len()
            invariant
                1 <= k <= rs@.len(),
                forall|j: int| 0 <= j < rs@.len() ==> rs@[j].font < self.fonts@.len(),
                t == tallest(rs@.take(k as int), self.fonts@),
            decreases rs@.len() - k,
        {
            proof {
                assert(rs@.take(k as int + 1).drop_last() =~= rs@.take(k as int));
            }
            let f = self.fonts[rs[k].font];
            if f.height() > t.height() {
                t = f;
            }
            k = k + 1;
        }
        proof {
            assert(rs@.take(rs@.len() as int) =~= rs@);
        }
        t
    }

    /// Draws text in the box at (`x`, `y`) of size `w` by `h` and returns the
    /// width it takes. `glyphs` are the string's code points, each with the
    /// first font of the set that renders it. The box is filled with the
    /// scheme's fill color (the background when `invert`, else the
    /// foreground); the runs of the string follow in the contrasting color,
    /// centred vertically on the tallest font they use, starting `lpad`
    /// pixels in, and cut before the first glyph that would come nearer than
    /// `lpad` to the right edge. Code points no font renders are skipped.
    /// With `x`, `y`, `w` and `h` all zero the text is only measured, and the
    /// surface is left as it is. Without an active scheme or a font nothing
    /// is drawn and the width is 0.
    pub fn text(&mut self, x: i32, y: i32, w: u32, h: u32, lpad: u32, glyphs: &Vec<Glyph>, invert: bool) -> (r: u32)
        ensures
            old(self).scheme_spec() is None || old(self).fonts_spec().len() == 0 ==> r == 0
                && final(self).ops_spec() == old(self).ops_spec(),
            old(self).scheme_spec() is Some && old(self).fonts_spec().len() > 0 ==> r == width_of(
                glyphs@,
                old(self).fonts_spec().len(),
                text_room(x, y, w, h, lpad),
            ),
            old(self).scheme_spec() is Some && old(self).fonts_spec().len() > 0 && measure_only(x, y, w, h)
                ==> final(self).ops_spec() == old(self).ops_spec(),
            old(self).scheme_spec() is Some && old(self).fonts_spec().len() > 0 && !measure_only(x, y, w, h)
                ==> final(self).ops_spec() == old(self).ops_spec() + text_ops(
                old(self).scheme_spec()->0,
                old(self).fonts_spec(),
                glyphs@,
                x,
                y,
                w,
                h,
                lpad,
                invert,
            ),
            final(self).width_spec() == old(self).width_spec(),
            final(self).height_spec() == old(self).height_spec(),
            final(self).scheme_spec() == old(self).scheme_spec(),
            final(self).fonts_spec() == old(self).fonts_spec(),
    {
        let s = match self.scheme {
            Some(s) => s,
            None => {
                return 0;
            },
        };
        let nf = self.fonts.len();
        if nf == 0 {
            return 0;
        }
        let measuring = x == 0 && y == 0 && w == 0 && h == 0;
        let room: u32 = if measuring {
            u32::MAX
        } else if w as u64 >= 2 * lpad as u64 {
            (w as u64 - 2 * lpad as u64) as u32
        } else {
            0
        };
        let (rs, width) = lay_out(glyphs, nf, room);
        if measuring {
            return width;
        }
        let ghost pre = self.ops@;
        self.ops.push(DrawOp::Fill { color: s.fill(invert), x, y, w: w as u64, h: h as u64 });
        if rs.len() > 0 {
            let t = self.tallest_font(&rs);
            let th = t.height();
            let d: i64 = h as i64 - th as i64;
            let half: i64 = if d >= 0 { d / 2 } else { -((-d + 1) / 2) };
            let base: i64 = y as i64 + half + t.ascent() as i64;
            let x0: i64 = x as i64 + lpad as i64;
            let ink = s.ink(invert);
            let ghost head = pre.push(DrawOp::Fill { color: s.fill_spec(invert), x, y, w: w as u64, h: h as u64 });
            let mut k: usize = 0;
            while k < rs.len()
                invariant
                    k <= rs@.len(),
                    x0 == x as int + lpad as int,
                    self.ops@ == head + run_ops(rs@.take(k as int), ink, x0 as int, base as int),
                    self.w == old(self).w,
                    self.h == old(self).h,
                    self.scheme == old(self).scheme,
                    self.fonts@ == old(self).fonts@,
                decreases rs@.len() - k,
            {
                let r = rs[k];
                proof {
                    assert(run_ops(rs@.take(k as int + 1), ink, x0 as int, base as int) =~= run_ops(
                        rs@.take(k as int),
                        ink,
                        x0 as int,
                        base as int,
                    ).push(run_op(r, ink, x0 as int, base as int)));
                }
                self.ops.push(DrawOp::Text { color: ink, font: r.font, start: r.start, end: r.end, x: x0 + r.x as i64, y: base });
                k = k + 1;
            }
            proof {
                assert(rs@.take(rs@.len() as int) =~= rs@);
                assert(self.ops@ =~= pre + text_ops(s, self.fonts@, glyphs@, x, y, w, h, lpad, invert));
            }
        } else {
            proof {
                assert(self.ops@ =~= pre + text_ops(s, self.fonts@, glyphs@, x, y, w, h, lpad, invert));
            }
        }
        width
    }

    /// Hands over the operations applied since the last flush, leaving none.
    pub fn take_ops(&mut self) -> (r: Vec<DrawOp>)
        ensures
            r@ == old(self).ops_spec(),
            final(self).ops_spec().len() == 0,
            final(self).width_spec() == old(self).width_spec(),
            final(self).height_spec() == old(self).height_spec(),
            final(self).scheme_spec() == old(self).scheme_spec(),
            final(self).fonts_spec() == old(self).fonts_spec(),
    {
        let mut out: Vec<DrawOp> = Vec::new();
        std::mem::swap(&mut out, &mut self.ops);
        out
    }

    /// Releases the font set, then the graphics context, then the surface,
    /// and returns those releases in that order. The font set is left empty.
    pub fn free(&mut self) -> (r: Vec<Release>)
        ensures
            r@.len() == old(self).fonts_spec().len() + 2,
            forall|k: int| 0 <= k < old(self).fonts_spec().len() ==> r@[k] == Release::Font(k as usize),
            r@[r@.len() - 2] == Release::Gc,
            r@[r@.len() - 1] == Release::Surface,
            final(self).fonts_spec().len() == 0,
            final(self).width_spec() == old(self).width_spec(),
            final(self).height_spec() == old(self).height_spec(),
            final(self).scheme_spec() == old(self).scheme_spec(),
            final(self).ops_spec() == old(self).ops_spec(),
    {
        let mut out: Vec<Release> = Vec::new();
        let n = self.fonts.len();
        let mut i: usize = 0;
        while i < n
            invariant
                i <= n,
                out@.len() == i,
                forall|k: int| 0 <= k < i ==> out@[k] == Release::Font(k as usize),
            decreases n - i,
        {
            out.push(Release::Font(i));
            i = i + 1;
        }
        out.push(Release::Gc);
        out.push(Release::Surface);
        self.fonts = Vec::new();
        out
    }

    pub fn width(&self) -> (r: u32)
        ensures
            r == self.width_spec(),
    {
        self.w
    }

    pub fn height(&self) -> (r: u32)
        ensures
            r == self.height_spec(),
    {
        self.h
    }

    pub fn scheme(&self) -> (r: Option<ClrScheme>)
        ensures
            r == self.scheme_spec(),
    {
        self.scheme
    }

    /// The number of fonts in the set.
    pub fn fontcount(&self) -> (r: usize)
        ensures
            r == self.fonts_spec().len(),
    {
        self.fonts.len()
    }

    pub fn fonts(&self) -> (r: &Vec<Fnt>)
        ensures
            r@ == self.fonts_spec(),
    {
        &self.fonts
    }

    pub fn ops(&self) -> (r: &Vec<DrawOp>)
        ensures
            r@ == self.ops_spec(),
    {
        &self.ops
    }
}

} // verus!
