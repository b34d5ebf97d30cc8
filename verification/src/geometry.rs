//! Points, sizes and rectangles in whole layout units.
//!
//! Extents are unsigned 32-bit and positions signed 64-bit, so that every
//! point on a rectangle that layout produced can be written down exactly.

use vstd::prelude::*;

verus! {

/// A position on the screen.
#[derive(Clone, Copy, Debug, PartialEq, Eq, Structural)]
pub struct Point {
    /// Distance from the left edge of the screen.
    pub x: i64,
    /// Distance from the top edge of the screen.
    pub y: i64,
}

/// An amount of space in two dimensions.
#[derive(Clone, Copy, Debug, PartialEq, Eq, Structural)]
pub struct Size {
    /// The horizontal extent.
    pub width: u32,
    /// The vertical extent.
    pub height: u32,
}

/// A box on the screen, given by its top-left corner and its extent.
#[derive(Clone, Copy, Debug, PartialEq, Eq, Structural)]
pub struct Rectangle {
    /// Horizontal position of the top-left corner.
    pub x: i64,
    /// Vertical position of the top-left corner.
    pub y: i64,
    /// The horizontal extent.
    pub width: u32,
    /// The vertical extent.
    pub height: u32,
}

impl Size {
    /// The size that stands for "no bound": the largest extent on both axes.
    pub open spec fn spec_unbounded() -> Size {
        Size { width: u32::MAX, height: u32::MAX }
    }

    /// The size that stands for "no bound".
    #[verifier::when_used_as_spec(spec_unbounded)]
    pub fn unbounded() -> (size: Size)
        ensures
            size == Size::spec_unbounded(),
    {
        Size { width: u32::MAX, height: u32::MAX }
    }
}

impl Rectangle {
    /// Whether the bottom-right corner can be written as a [`Point`].
    pub open spec fn fits(self) -> bool {
        self.x + self.width <= i64::MAX && self.y + self.height <= i64::MAX
    }

    /// Horizontal position of the middle of the box; an odd width leaves the
    /// middle half a unit to the left of the true centre.
    pub open spec fn spec_center_x(self) -> int {
        self.x + self.width / 2
    }

    /// Vertical position of the middle of the box; an odd height leaves the
    /// middle half a unit above the true centre.
    pub open spec fn spec_center_y(self) -> int {
        self.y + self.height / 2
    }

    /// Horizontal position of the middle of the box.
    pub fn center_x(&self) -> (x: i64)
        requires
            self.fits(),
        ensures
            x == self.spec_center_x(),
    {
        self.x + (self.width / 2) as i64
    }

    /// Vertical position of the middle of the box.
    pub fn center_y(&self) -> (y: i64)
        requires
            self.fits(),
        ensures
            y == self.spec_center_y(),
    {
        self.y + (self.height / 2) as i64
    }
}

} // verus!
