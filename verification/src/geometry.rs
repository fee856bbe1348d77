//! Points, rectangles and the viewport, in whole pixels.
//!
//! The origin is the top-left corner of the screen; `x` grows to the right
//! and `y` grows downwards.

use vstd::prelude::*;

verus! {

/// A position on the screen.
#[derive(Clone, Copy, Debug, PartialEq, Eq, Structural)]
pub struct Point {
    pub x: i32,
    pub y: i32,
}

/// An axis-aligned rectangle: its top-left corner and its extent.
///
/// The rectangle is closed: it contains its four edges.
#[derive(Clone, Copy, Debug, PartialEq, Eq, Structural)]
pub struct Rect {
    pub x: i32,
    pub y: i32,
    pub w: u32,
    pub h: u32,
}

/// A rectangle as a region of the plane: the coordinates of its four edges.
pub struct Bounds {
    pub left: int,
    pub top: int,
    pub right: int,
    pub bottom: int,
}

impl Bounds {
    /// Whether the point `(px, py)` lies in the region, edges included.
    pub open spec fn contains(self, px: int, py: int) -> bool {
        self.left <= px <= self.right && self.top <= py <= self.bottom
    }

    /// Whether the projections of the two regions meet on both axes.
    /// Regions that only share an edge or a corner do overlap.
    pub open spec fn overlaps(self, other: Bounds) -> bool {
        &&& self.left <= other.right
        &&& self.right >= other.left
        &&& self.top <= other.bottom
        &&& self.bottom >= other.top
    }

    /// Whether the edges are in order, so that the region is not empty.
    pub open spec fn ordered(self) -> bool {
        self.left <= self.right && self.top <= self.bottom
    }
}

impl View for Rect {
    type V = Bounds;

    open spec fn view(&self) -> Bounds {
        Bounds {
            left: self.x as int,
            top: self.y as int,
            right: self.x + self.w,
            bottom: self.y + self.h,
        }
    }
}

impl Rect {
    /// Tests whether this rectangle and `other` overlap.
    pub fn overlaps(&self, other: &Rect) -> (hit: bool)
        ensures
            hit == self@.overlaps(other@),
    {
        let left: i64 = self.x as i64;
        let right: i64 = self.x as i64 + self.w as i64;
        let top: i64 = self.y as i64;
        let bottom: i64 = self.y as i64 + self.h as i64;
        let other_left: i64 = other.x as i64;
        let other_right: i64 = other.x as i64 + other.w as i64;
        let other_top: i64 = other.y as i64;
        let other_bottom: i64 = other.y as i64 + other.h as i64;
        left <= other_right && right >= other_left && top <= other_bottom && bottom >= other_top
    }
}

/// The size of the drawing surface, queried afresh on every tick.
#[derive(Clone, Copy, Debug, PartialEq, Eq, Structural)]
pub struct Viewport {
    pub width: u32,
    pub height: u32,
}

impl Viewport {
    /// The x coordinate of the centre; an odd width is halved downwards.
    pub open spec fn center_x(self) -> int {
        self.width as int / 2
    }

    /// The y coordinate of the centre; an odd height is halved downwards.
    pub open spec fn center_y(self) -> int {
        self.height as int / 2
    }

    /// The centre of the viewport, where the player starts.
    pub fn center(&self) -> (c: Point)
        ensures
            c.x == self.center_x(),
            c.y == self.center_y(),
    {
        Point { x: (self.width / 2) as i32, y: (self.height / 2) as i32 }
    }
}

/// Overlap does not depend on the order of the two rectangles.
pub proof fn lemma_overlap_symmetric(a: Bounds, b: Bounds)
    ensures
        a.overlaps(b) == b.overlaps(a),
{
}

/// Two non-empty rectangles overlap exactly when some point lies in both.
pub proof fn lemma_overlap_shares_point(a: Bounds, b: Bounds)
    requires
        a.ordered(),
        b.ordered(),
    ensures
        a.overlaps(b) <==> exists|px: int, py: int| a.contains(px, py) && b.contains(px, py),
{
    if a.overlaps(b) {
        let px = if a.left >= b.left { a.left } else { b.left };
        let py = if a.top >= b.top { a.top } else { b.top };
        assert(a.contains(px, py) && b.contains(px, py));
    }
}

} // verus!
