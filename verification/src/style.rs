//! The visual attributes applied to the cells a render call writes.

use vstd::prelude::*;

verus! {

/// A terminal color, as carried by a cell's style.
///
/// `Reset` stands for the terminal's own default color.
#[derive(Clone, Copy, PartialEq, Eq, Structural, Debug)]
pub enum Color {
    Reset,
    Black,
    Red,
    Green,
    Yellow,
    Blue,
    Magenta,
    Cyan,
    White,
}

/// The attributes applied to every cell that one write touches: a foreground
/// and a background color.
#[derive(Clone, Copy, PartialEq, Eq, Structural, Debug)]
pub struct Style {
    pub fg: Color,
    pub bg: Color,
}

impl Style {
    /// The style that leaves both colors for the terminal to choose; text
    /// drawables write with it.
    pub open spec fn spec_default() -> Style {
        Style { fg: Color::Reset, bg: Color::Reset }
    }

    pub fn new(fg: Color, bg: Color) -> (s: Style)
        ensures
            s == (Style { fg, bg }),
    {
        Style { fg, bg }
    }
}

impl Default for Style {
    fn default() -> (s: Style)
        ensures
            s == Style::spec_default(),
    {
        Style { fg: Color::Reset, bg: Color::Reset }
    }
}

} // verus!
