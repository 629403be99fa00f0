//! Sizes and distances, in whole pixels.

use vstd::prelude::*;

verus! {

/// How much room an element asks for along one axis.
#[derive(Debug, Clone, Copy, PartialEq, Eq, Structural)]
pub enum Length {
    /// All the room that is left.
    Fill,
    /// A share of the room that is left, in proportion to the shares of the
    /// other elements that ask for one.
    FillPortion(u16),
    /// As little as the content needs.
    Shrink,
    /// This many pixels.
    Fixed(u32),
}

/// The room between an element's edge and its content: `vertical` above and
/// below, `horizontal` left and right.
#[derive(Debug, Clone, Copy, PartialEq, Eq, Structural)]
pub struct Padding {
    pub vertical: u16,
    pub horizontal: u16,
}

} // verus!
