//! Rectangles as the toolkit lays them out.

use vstd::prelude::*;

verus! {

/// A rectangle by its four edges, in pixels.
#[derive(Debug, Clone, Copy, PartialEq, Eq, Structural)]
pub struct Rectangle {
    /// The left edge.
    pub l: i32,
    /// The right edge.
    pub r: i32,
    /// The top edge.
    pub t: i32,
    /// The bottom edge.
    pub b: i32,
}

/// The rectangle with the left edge `l`, the right edge `r`, the top edge `t`
/// and the bottom edge `b`.
pub fn rect(l: i32, r: i32, t: i32, b: i32) -> (area: Rectangle)
    ensures
        area == (Rectangle { l, r, t, b }),
{
    Rectangle { l, r, t, b }
}

} // verus!
