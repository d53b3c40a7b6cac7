use vstd::prelude::*;

verus! {

/// Line metrics reported by the font service for an opened font.
#[derive(Clone, Copy, Debug, PartialEq, Eq, Structural)]
pub struct FontMetrics {
    pub ascent: i32,
    pub descent: i32,
}

/// A loaded font: its line metrics, with `h` the total line height, which is
/// always positive.
#[derive(Clone, Copy, Debug, PartialEq, Eq, Structural)]
pub struct Fnt {
    ascent: i32,
    descent: i32,
    h: i32,
}

impl View for Fnt {
    type V = FontMetrics;

    closed spec fn view(&self) -> FontMetrics {
        FontMetrics { ascent: self.ascent, descent: self.descent }
    }
}

/// Why a font could not be loaded.
#[derive(Debug)]
pub enum FontLoadError {
    /// Neither a font name nor a match pattern was given.
    NoFontSpecified,
    /// The named font could not be opened.
    CannotLoadName(String),
    /// The match pattern could not be opened.
    CannotLoadPattern,
    /// The font opened, but its ascent and descent give no positive height.
    BadMetrics,
}

impl Fnt {
    #[verifier::type_invariant]
    spec fn inv(&self) -> bool {
        &&& self.h == self.ascent + self.descent
        &&& self.h > 0
    }

    /// The line height of a font with metrics `m`.
    pub open spec fn height_of(m: FontMetrics) -> int {
        m.ascent + m.descent
    }

    pub fn ascent(&self) -> (r: i32)
        ensures
            r == self@.ascent,
    {
        self.ascent
    }

    pub fn descent(&self) -> (r: i32)
        ensures
            r == self@.descent,
    {
        self.descent
    }

    pub fn height(&self) -> (r: i32)
        ensures
            r == Self::height_of(self@),
            r > 0,
    {
        proof {
            use_type_invariant(self);
        }
        self.h
    }

    /// Whether `m` describes a usable font.
    pub open spec fn metrics_ok(m: FontMetrics) -> bool {
        0 < m.ascent + m.descent <= i32::MAX
    }

    /// Builds a font from the answer of the font service. A name takes
    /// precedence over a pattern; `opened` is what opening the chosen source
    /// gave, `None` when it failed.
    pub fn new(fontname: Option<String>, has_pattern: bool, opened: Option<FontMetrics>) -> (r: Result<Fnt, FontLoadError>)
        ensures
            fontname is None && !has_pattern ==> r == Err::<Fnt, FontLoadError>(FontLoadError::NoFontSpecified),
            (fontname is Some || has_pattern) && opened is None ==> r == (match fontname {
                Some(n) => Err::<Fnt, FontLoadError>(FontLoadError::CannotLoadName(n)),
                None => Err::<Fnt, FontLoadError>(FontLoadError::CannotLoadPattern),
            }),
            (fontname is Some || has_pattern) && opened is Some && !Self::metrics_ok(opened->0) ==> r
                == Err::<Fnt, FontLoadError>(FontLoadError::BadMetrics),
            (fontname is Some || has_pattern) && opened is Some && Self::metrics_ok(opened->0) ==> r is Ok
                && r->Ok_0@ == opened->0,
    {
        if fontname.is_none() && !has_pattern {
            return Err(FontLoadError::NoFontSpecified);
        }
        match opened {
            None => match fontname {
                Some(n) => Err(FontLoadError::CannotLoadName(n)),
                None => Err(FontLoadError::CannotLoadPattern),
            },
            Some(m) => {
                let total: i64 = m.ascent as i64 + m.descent as i64;
                if total <= 0 || total > i32::MAX as i64 {
                    Err(FontLoadError::BadMetrics)
                } else {
                    Ok(Fnt { ascent: m.ascent, descent: m.descent, h: total as i32 })
                }
            },
        }
    }
}

} // verus!
