//! Axis-aligned integer rectangles in terminal cell coordinates.

use vstd::prelude::*;

verus! {

/// A rectangle of terminal cells: `x`/`y` is the top-left corner,
/// `width`/`height` its extent. A well-formed rectangle fits inside
/// the `u16` coordinate space, so `right()` and `bottom()` never
/// overflow.
#[derive(Clone, Copy, Debug, PartialEq, Eq, Structural)]
pub struct Rect {
    pub x: u16,
    pub y: u16,
    pub width: u16,
    pub height: u16,
}

impl Rect {
    /// The rectangle's coordinates stay inside the `u16` space.
    pub open spec fn wf(self) -> bool {
        self.x + self.width <= u16::MAX && self.y + self.height <= u16::MAX
    }

    pub open spec fn spec_left(self) -> int {
        self.x as int
    }

    pub open spec fn spec_right(self) -> int {
        self.x + self.width
    }

    pub open spec fn spec_top(self) -> int {
        self.y as int
    }

    pub open spec fn spec_bottom(self) -> int {
        self.y + self.height
    }

    /// A cell coordinate lies inside the rectangle.
    pub open spec fn spec_contains(self, cx: int, cy: int) -> bool {
        self.spec_left() <= cx < self.spec_right() && self.spec_top() <= cy < self.spec_bottom()
    }

    /// The column just right of the rectangle.
    pub fn right(&self) -> (r: u16)
        requires
            self.wf(),
        ensures
            r == self.spec_right(),
    {
        self.x + self.width
    }

    /// The row just below the rectangle.
    pub fn bottom(&self) -> (r: u16)
        requires
            self.wf(),
        ensures
            r == self.spec_bottom(),
    {
        self.y + self.height
    }

    /// An empty rectangle at the origin.
    pub fn zero() -> (r: Rect)
        ensures
            r == (Rect { x: 0u16, y: 0u16, width: 0u16, height: 0u16 }),
            r.wf(),
    {
        Rect { x: 0, y: 0, width: 0, height: 0 }
    }
}

} // verus!
