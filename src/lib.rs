//! Drawing-context logic for a window manager's decorations: color schemes,
//! font sets with fallback, and the rectangle and text primitives, expressed
//! as a queue of drawing operations over an off-screen surface.
pub mod color;
pub mod drw;
pub mod font;
pub mod layout;

pub use color::{Clr, ClrScheme, ColorAllocationError};
pub use drw::{DrawOp, Drw, Release};
pub use font::{Fnt, FontLoadError, FontMetrics};
pub use layout::{Glyph, Run, lay_out, pick_font};
