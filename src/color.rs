use vstd::prelude::*;

verus! {

/// An allocated color: the device pixel value and its 16-bit RGBA channels.
#[derive(Clone, Copy, Debug, PartialEq, Eq, Structural)]
pub struct Clr {
    pub pix: u64,
    pub red: u16,
    pub green: u16,
    pub blue: u16,
    pub alpha: u16,
}

/// Why a color could not be allocated.
#[derive(Debug)]
pub enum ColorAllocationError {
    /// The color name was empty.
    EmptyName,
    /// The display could not resolve or allocate the named color.
    Unresolved(String),
}

impl Clr {
    pub fn new(pix: u64, red: u16, green: u16, blue: u16, alpha: u16) -> (r: Clr)
        ensures
            r == (Clr { pix, red, green, blue, alpha }),
    {
        Clr { pix, red, green, blue, alpha }
    }

    /// Turns the display's answer for `name` into a color or an error:
    /// an empty name is refused before anything else, and a name the display
    /// could not allocate is reported by name.
    pub fn from_allocation(name: String, allocated: Option<Clr>) -> (r: Result<Clr, ColorAllocationError>)
        ensures
            name@.len() == 0 ==> r == Err::<Clr, ColorAllocationError>(ColorAllocationError::EmptyName),
            name@.len() > 0 && allocated is None ==> r == Err::<Clr, ColorAllocationError>(
                ColorAllocationError::Unresolved(name),
            ),
            name@.len() > 0 && allocated is Some ==> r == Ok::<Clr, ColorAllocationError>(allocated->0),
    {
        if name.as_str().is_empty() {
            Err(ColorAllocationError::EmptyName)
        } else {
            match allocated {
                Some(c) => Ok(c),
                None => Err(ColorAllocationError::Unresolved(name)),
            }
        }
    }
}

/// The foreground, background and border colors used by one drawing call.
#[derive(Clone, Copy, Debug, PartialEq, Eq, Structural)]
pub struct ClrScheme {
    pub fg: Clr,
    pub bg: Clr,
    pub border: Clr,
}

impl ClrScheme {
    pub fn new(fg: Clr, bg: Clr, border: Clr) -> (r: ClrScheme)
        ensures
            r == (ClrScheme { fg, bg, border }),
    {
        ClrScheme { fg, bg, border }
    }

    /// The color of a filled area: the background when inverted, else the foreground.
    pub open spec fn fill_spec(self, invert: bool) -> Clr {
        if invert { self.bg } else { self.fg }
    }

    /// The color that contrasts with `fill_spec`, used for glyphs.
    pub open spec fn ink_spec(self, invert: bool) -> Clr {
        if invert { self.fg } else { self.bg }
    }

    pub fn fill(&self, invert: bool) -> (r: Clr)
        ensures
            r == self.fill_spec(invert),
    {
        if invert { self.bg } else { self.fg }
    }

    pub fn ink(&self, invert: bool) -> (r: Clr)
        ensures
            r == self.ink_spec(invert),
    {
        if invert { self.fg } else { self.bg }
    }
}

} // verus!
