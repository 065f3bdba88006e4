//! Screen coordinates and window bounding rectangles.

use vstd::prelude::*;

verus! {

/// A point in screen coordinates, produced per pointer event.
#[derive(Clone, Copy, PartialEq, Eq, Structural, Debug)]
pub struct ScreenPoint {
    pub x: i32,
    pub y: i32,
}

/// A window bounding rectangle in screen coordinates. `right` and `bottom`
/// are exclusive, as the windowing system reports them.
#[derive(Clone, Copy, PartialEq, Eq, Structural, Debug)]
pub struct ScreenRect {
    pub left: i32,
    pub top: i32,
    pub right: i32,
    pub bottom: i32,
}

/// A point lies in a rectangle when it is on or right of the left edge,
/// strictly left of the right edge, on or below the top edge and strictly
/// above the bottom edge.
pub open spec fn spec_point_in_rect(r: ScreenRect, p: ScreenPoint) -> bool {
    r.left <= p.x < r.right && r.top <= p.y < r.bottom
}

/// Hit test of a point against a bounding rectangle; edges on the right and
/// bottom are outside.
pub fn point_in_rect(r: &ScreenRect, p: &ScreenPoint) -> (b: bool)
    ensures
        b == spec_point_in_rect(*r, *p),
{
    r.left <= p.x && p.x < r.right && r.top <= p.y && p.y < r.bottom
}

} // verus!
