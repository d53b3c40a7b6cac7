use drw::{
    lay_out, pick_font, Clr, ClrScheme, ColorAllocationError, DrawOp, Drw, Fnt, FontLoadError, FontMetrics,
    Glyph, Release, Run,
};

fn fg() -> Clr {
    Clr::new(0x00ff_ffff, 0xffff, 0xffff, 0xffff, 0xffff)
}

fn bg() -> Clr {
    Clr::new(0x0022_2222, 0x2222, 0x2222, 0x2222, 0xffff)
}

fn border() -> Clr {
    Clr::new(0x0044_4444, 0x4444, 0x4444, 0x4444, 0xffff)
}

fn scheme() -> ClrScheme {
    ClrScheme::new(fg(), bg(), border())
}

fn font(ascent: i32, descent: i32) -> Fnt {
    Fnt::new(Some("mono".to_string()), false, Some(FontMetrics { ascent, descent })).unwrap()
}

/// A context with a primary font (ascent 10, descent 2) and a secondary one
/// (ascent 14, descent 4), and an active scheme.
fn context() -> Drw {
    let mut d = Drw::new(200, 30);
    let warnings = d.load_fonts(&vec![Ok(font(10, 2)), Ok(font(14, 4))]);
    assert!(warnings.is_empty());
    d.setscheme(scheme());
    d
}

fn g(ch: char, font: Option<usize>, adv: u16) -> Glyph {
    Glyph { ch, font, adv }
}

#[test]
fn color_allocation_results() {
    assert!(matches!(Clr::from_allocation(String::new(), Some(fg())), Err(ColorAllocationError::EmptyName)));
    match Clr::from_allocation("#zzzzzz".to_string(), None) {
        Err(ColorAllocationError::Unresolved(n)) => assert_eq!(n, "#zzzzzz"),
        other => panic!("unexpected {:?}", other),
    }
    assert_eq!(Clr::from_allocation("#ffffff".to_string(), Some(fg())).unwrap(), fg());
}

#[test]
fn scheme_fill_and_ink() {
    let s = scheme();
    assert_eq!(s.fill(true), bg());
    assert_eq!(s.fill(false), fg());
    assert_eq!(s.ink(true), fg());
    assert_eq!(s.ink(false), bg());
    assert_eq!(s.border, border());
}

#[test]
fn font_load_outcomes() {
    assert!(matches!(Fnt::new(None, false, None), Err(FontLoadError::NoFontSpecified)));
    assert!(matches!(
        Fnt::new(None, false, Some(FontMetrics { ascent: 1, descent: 1 })),
        Err(FontLoadError::NoFontSpecified)
    ));
    match Fnt::new(Some("nonexistent-font-X".to_string()), false, None) {
        Err(FontLoadError::CannotLoadName(n)) => assert_eq!(n, "nonexistent-font-X"),
        other => panic!("unexpected {:?}", other),
    }
    assert!(matches!(Fnt::new(None, true, None), Err(FontLoadError::CannotLoadPattern)));
    assert!(matches!(
        Fnt::new(Some("a".to_string()), false, Some(FontMetrics { ascent: 0, descent: 0 })),
        Err(FontLoadError::BadMetrics)
    ));
    assert!(matches!(
        Fnt::new(Some("a".to_string()), false, Some(FontMetrics { ascent: i32::MAX, descent: 1 })),
        Err(FontLoadError::BadMetrics)
    ));
    let f = Fnt::new(None, true, Some(FontMetrics { ascent: 11, descent: 3 })).unwrap();
    assert_eq!((f.ascent(), f.descent(), f.height()), (11, 3, 14));
}

#[test]
fn font_set_skips_failed_names() {
    let mut d = Drw::new(10, 10);
    let names = ["valid-font-A", "nonexistent-font-X", "valid-font-B"];
    let opened = [
        Some(FontMetrics { ascent: 10, descent: 2 }),
        None,
        Some(FontMetrics { ascent: 14, descent: 4 }),
    ];
    let loaded: Vec<Result<Fnt, FontLoadError>> =
        names.iter().zip(opened.iter()).map(|(n, m)| Fnt::new(Some(n.to_string()), false, *m)).collect();
    let warnings = d.load_fonts(&loaded);
    assert_eq!(warnings, vec![1]);
    assert!(matches!(&loaded[warnings[0]], Err(FontLoadError::CannotLoadName(n)) if n == "nonexistent-font-X"));
    assert_eq!(d.fontcount(), 2);
    assert_eq!(d.fonts()[0].ascent(), 10);
    assert_eq!(d.fonts()[1].ascent(), 14);
}

#[test]
fn rect_sizes() {
    for &w in &[0u32, 1, 10, 1000] {
        for &h in &[0u32, 1, 10, 1000] {
            let mut d = context();
            d.rect(3, 4, w, h, true, false, false);
            d.rect(3, 4, w, h, false, false, false);
            assert_eq!(
                d.ops().clone(),
                vec![
                    DrawOp::Fill { color: fg(), x: 3, y: 4, w: w as u64 + 1, h: h as u64 + 1 },
                    DrawOp::Fill { color: fg(), x: 3, y: 4, w: w as u64, h: h as u64 },
                ]
            );
        }
    }
}

#[test]
fn rect_largest_extent() {
    let mut d = context();
    d.rect(0, 0, u32::MAX, u32::MAX, true, false, true);
    assert_eq!(d.ops()[0], DrawOp::Fill { color: bg(), x: 0, y: 0, w: 1 << 32, h: 1 << 32 });
}

#[test]
fn invert_selects_background() {
    let mut d = context();
    d.rect(0, 0, 5, 5, false, false, true);
    d.rect(0, 0, 5, 5, false, false, false);
    d.text(0, 0, 50, 20, 1, &vec![g('a', Some(0), 4)], true);
    d.text(0, 0, 50, 20, 1, &vec![g('a', Some(0), 4)], false);
    let ops = d.take_ops();
    let fills: Vec<Clr> = ops
        .iter()
        .filter_map(|op| match op {
            DrawOp::Fill { color, .. } => Some(*color),
            _ => None,
        })
        .collect();
    assert_eq!(fills, vec![bg(), fg(), bg(), fg()]);
    assert!(matches!(ops[3], DrawOp::Text { color, .. } if color == fg()));
    assert!(matches!(ops[5], DrawOp::Text { color, .. } if color == bg()));
}

#[test]
fn drawing_before_scheme_is_noop() {
    let mut d = Drw::new(100, 20);
    d.load_fonts(&vec![Ok(font(10, 2))]);
    d.rect(1, 1, 10, 10, true, false, false);
    assert_eq!(d.text(1, 1, 50, 10, 2, &vec![g('a', Some(0), 5)], false), 0);
    assert_eq!(d.text(0, 0, 0, 0, 0, &vec![g('a', Some(0), 5)], false), 0);
    assert_eq!(d.measure(&vec![g('a', Some(0), 5)]), 0);
    assert!(d.ops().is_empty());
}

#[test]
fn text_without_fonts_is_noop() {
    let mut d = Drw::new(100, 20);
    d.setscheme(scheme());
    assert_eq!(d.text(1, 1, 50, 10, 2, &vec![g('a', Some(0), 5)], false), 0);
    assert!(d.ops().is_empty());
}

#[test]
fn measure_only_is_repeatable_and_draws_nothing() {
    let mut d = context();
    let gs = vec![g('a', Some(0), 6), g('Ω', Some(1), 9), g('b', Some(0), 6)];
    let first = d.text(0, 0, 0, 0, 5, &gs, false);
    let second = d.text(0, 0, 0, 0, 5, &gs, false);
    assert_eq!(first, 21);
    assert_eq!(second, first);
    assert_eq!(d.measure(&gs), 21);
    assert!(d.ops().is_empty());
    assert_eq!(d.measure(&Vec::new()), 0);
}

#[test]
fn primary_font_only_width_is_sum() {
    let d = context();
    let gs = vec![g('a', Some(0), 6), g('b', Some(0), 7), g('c', Some(0), 8)];
    assert_eq!(d.measure(&gs), 21);
    let (runs, width) = lay_out(&gs, 2, u32::MAX);
    assert_eq!(width, 21);
    assert_eq!(runs, vec![Run { font: 0, start: 0, end: 3, x: 0 }]);
}

#[test]
fn fallback_run_counts_in_width() {
    let d = context();
    let gs = vec![g('a', Some(0), 6), g('Ω', Some(1), 9)];
    assert_eq!(d.measure(&gs), 15);
    let (runs, _) = lay_out(&gs, 2, u32::MAX);
    assert_eq!(runs, vec![Run { font: 0, start: 0, end: 1, x: 0 }, Run { font: 1, start: 1, end: 2, x: 6 }]);
}

#[test]
fn text_draws_runs_on_common_baseline() {
    let mut d = context();
    let gs = vec![g('a', Some(0), 6), g('b', Some(0), 6), g('Ω', Some(1), 9), g('c', Some(0), 6)];
    let width = d.text(5, 3, 100, 20, 2, &gs, false);
    assert_eq!(width, 27);
    assert_eq!(
        d.take_ops(),
        vec![
            DrawOp::Fill { color: fg(), x: 5, y: 3, w: 100, h: 20 },
            DrawOp::Text { color: bg(), font: 0, start: 0, end: 2, x: 7, y: 18 },
            DrawOp::Text { color: bg(), font: 1, start: 2, end: 3, x: 19, y: 18 },
            DrawOp::Text { color: bg(), font: 0, start: 3, end: 4, x: 28, y: 18 },
        ]
    );
    assert!(d.ops().is_empty());
}

#[test]
fn text_baseline_in_short_box() {
    let mut d = context();
    // tallest font is 18 high with ascent 14; the box is 11 high
    d.text(0, 10, 100, 11, 0, &vec![g('Ω', Some(1), 9)], false);
    assert_eq!(d.ops()[1], DrawOp::Text { color: bg(), font: 1, start: 0, end: 1, x: 0, y: 20 });
}

#[test]
fn text_is_cut_at_box_width() {
    let mut d = context();
    let gs = vec![g('a', Some(0), 6), g('b', Some(0), 6), g('Ω', Some(1), 9), g('c', Some(0), 1)];
    let width = d.text(0, 0, 20, 12, 2, &gs, true);
    assert_eq!(width, 12);
    assert_eq!(
        d.take_ops(),
        vec![
            DrawOp::Fill { color: bg(), x: 0, y: 0, w: 20, h: 12 },
            DrawOp::Text { color: fg(), font: 0, start: 0, end: 2, x: 2, y: 10 },
        ]
    );
}

#[test]
fn text_padding_wider_than_box_draws_only_background() {
    let mut d = context();
    assert_eq!(d.text(1, 1, 3, 12, 2, &vec![g('a', Some(0), 1)], false), 0);
    assert_eq!(d.take_ops(), vec![DrawOp::Fill { color: fg(), x: 1, y: 1, w: 3, h: 12 }]);
}

#[test]
fn unsupported_glyph_is_skipped() {
    let gs = vec![g('a', Some(0), 6), g('\u{1f600}', None, 30), g('b', Some(0), 6), g('c', Some(7), 5)];
    let (runs, width) = lay_out(&gs, 2, u32::MAX);
    assert_eq!(width, 12);
    assert_eq!(runs, vec![Run { font: 0, start: 0, end: 1, x: 0 }, Run { font: 0, start: 2, end: 3, x: 6 }]);
}

#[test]
fn lay_out_empty_string() {
    let (runs, width) = lay_out(&Vec::new(), 2, 100);
    assert!(runs.is_empty());
    assert_eq!(width, 0);
}

#[test]
fn lay_out_exact_fit() {
    let gs = vec![g('a', Some(0), 5), g('b', Some(1), 5)];
    let (runs, width) = lay_out(&gs, 2, 10);
    assert_eq!(width, 10);
    assert_eq!(runs.len(), 2);
    let (runs, width) = lay_out(&gs, 2, 9);
    assert_eq!(width, 5);
    assert_eq!(runs, vec![Run { font: 0, start: 0, end: 1, x: 0 }]);
}

#[test]
fn pick_font_takes_first_supporting() {
    assert_eq!(pick_font(&vec![false, true, true], 3), Some(1));
    assert_eq!(pick_font(&vec![true, true], 2), Some(0));
    assert_eq!(pick_font(&vec![false, false], 2), None);
    assert_eq!(pick_font(&vec![false, true], 1), None);
    assert_eq!(pick_font(&Vec::new(), 3), None);
}

#[test]
fn free_releases_fonts_first() {
    let mut d = context();
    assert_eq!(d.free(), vec![Release::Font(0), Release::Font(1), Release::Gc, Release::Surface]);
    assert_eq!(d.fontcount(), 0);
    let mut e = Drw::new(1, 1);
    assert_eq!(e.free(), vec![Release::Gc, Release::Surface]);
}

#[test]
fn resize_gives_fresh_surface() {
    let mut d = context();
    d.rect(0, 0, 1, 1, true, false, false);
    d.resize(640, 17);
    assert_eq!((d.width(), d.height()), (640, 17));
    assert!(d.scheme().is_none());
    assert!(d.ops().is_empty());
    assert_eq!(d.fontcount(), 2);
    let fresh = Drw::new(640, 17);
    assert_eq!((fresh.width(), fresh.height()), (640, 17));
    assert!(fresh.scheme().is_none());
}
