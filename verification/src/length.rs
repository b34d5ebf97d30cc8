//! Sizing intent along one axis.

use vstd::prelude::*;

verus! {

/// How an element asks for space along one axis.
#[derive(Clone, Copy, Debug, PartialEq, Eq, Hash, Structural)]
pub enum Length {
    /// Take all the space that is left.
    Fill,
    /// Take a share of the space that is left, in proportion to the shares
    /// of the other elements.
    FillPortion(u16),
    /// Take as little space as possible.
    Shrink,
    /// Take exactly this many units.
    Fixed(u16),
}

} // verus!
