//! Where content sits inside the box that layout gave it.

use vstd::prelude::*;

verus! {

/// Placement along the horizontal axis.
#[derive(Clone, Copy, Debug, PartialEq, Eq, Hash, Structural)]
pub enum Horizontal {
    /// Against the left edge.
    Left,
    /// Halfway between the left and the right edge.
    Center,
    /// Against the right edge.
    Right,
}

/// Placement along the vertical axis.
#[derive(Clone, Copy, Debug, PartialEq, Eq, Hash, Structural)]
pub enum Vertical {
    /// Against the top edge.
    Top,
    /// Halfway between the top and the bottom edge.
    Center,
    /// Against the bottom edge.
    Bottom,
}

} // verus!
