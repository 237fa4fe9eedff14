//! The rectangle that tells a render call where it is invited to draw.

use vstd::prelude::*;

verus! {

/// A rectangle in cell units: position of its top-left corner, then width and
/// height. A width or height of zero describes an empty drawing area.
///
/// The caller owns the rectangle for the duration of a single render call; no
/// drawable retains it.
#[derive(Clone, Copy, PartialEq, Eq, Structural, Debug)]
pub struct Rect {
    pub x: u16,
    pub y: u16,
    pub width: u16,
    pub height: u16,
}

impl Rect {
    /// The column just past the right edge.
    pub open spec fn spec_right(self) -> int {
        self.x + self.width
    }

    /// The row just past the bottom edge.
    pub open spec fn spec_bottom(self) -> int {
        self.y + self.height
    }

    /// How many cells the rectangle covers.
    pub open spec fn spec_area(self) -> int {
        self.width * self.height
    }

    /// Whether the cell at column `x`, row `y` lies inside the rectangle.
    pub open spec fn spec_contains(self, x: int, y: int) -> bool {
        &&& self.x <= x < self.spec_right()
        &&& self.y <= y < self.spec_bottom()
    }

    pub fn new(x: u16, y: u16, width: u16, height: u16) -> (r: Rect)
        ensures
            r == (Rect { x, y, width, height }),
    {
        Rect { x, y, width, height }
    }

    /// Whether the cell at column `x`, row `y` lies inside the rectangle.
    pub fn contains(self, x: u16, y: u16) -> (b: bool)
        ensures
            b == self.spec_contains(x as int, y as int),
    {
        self.x <= x && (x as u32) < (self.x as u32) + (self.width as u32) && self.y <= y && (
        y as u32) < (self.y as u32) + (self.height as u32)
    }
}

} // verus!
