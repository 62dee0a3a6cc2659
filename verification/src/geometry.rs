//! Plane geometry for the playfield: points, axis-aligned rectangles, and
//! the strict bounding-box overlap test used for collisions.

use vstd::prelude::*;

use crate::SCALE;

verus! {

/// Largest coordinate magnitude a playfield box may reach.  Keeping every
/// edge inside this band makes the overlap arithmetic overflow-free.
pub const COORD_MAX: i64 = 4 * SCALE;

/// A point of the playfield, in fixed-point world coordinates.
#[derive(Clone, Copy, Debug, PartialEq, Eq, Structural)]
pub struct Point2 {
    /// Horizontal coordinate; the playfield spans `0..SCALE`.
    pub x: i64,
    /// Vertical coordinate; the playfield spans `0..SCALE`.
    pub y: i64,
}

impl Point2 {
    /// Builds a point.
    pub fn new(x: i64, y: i64) -> (r: Point2)
        ensures
            r.x == x,
            r.y == y,
    {
        Point2 { x, y }
    }
}

/// Strict overlap of two axis-aligned boxes given by their edges: every one
/// of the four half-plane comparisons is strict, so boxes that merely touch
/// do not intersect.
pub open spec fn boxes_intersect(
    a_top: i64,
    a_right: i64,
    a_bot: i64,
    a_left: i64,
    b_top: i64,
    b_right: i64,
    b_bot: i64,
    b_left: i64,
) -> bool {
    &&& a_left < b_right
    &&& a_right > b_left
    &&& a_bot < b_top
    &&& a_top > b_bot
}

/// Things with an axis-aligned bounding box.
pub trait AABB: Sized {
    /// The box's upper edge.
    spec fn top_spec(&self) -> i64;

    /// The box's right edge.
    spec fn right_spec(&self) -> i64;

    /// The box's lower edge.
    spec fn bot_spec(&self) -> i64;

    /// The box's left edge.
    spec fn left_spec(&self) -> i64;

    /// The box lies within the playfield coordinate band.
    spec fn bounded(&self) -> bool;

    /// Reads the upper edge.
    fn top(&self) -> (r: i64)
        requires
            self.bounded(),
        ensures
            r == self.top_spec(),
    ;

    /// Reads the right edge.
    fn right(&self) -> (r: i64)
        requires
            self.bounded(),
        ensures
            r == self.right_spec(),
    ;

    /// Reads the lower edge.
    fn bot(&self) -> (r: i64)
        requires
            self.bounded(),
        ensures
            r == self.bot_spec(),
    ;

    /// Reads the left edge.
    fn left(&self) -> (r: i64)
        requires
            self.bounded(),
        ensures
            r == self.left_spec(),
    ;

    /// Strict axis-aligned overlap with another box.
    fn intersect(&self, other: &Self) -> (r: bool)
        requires
            self.bounded(),
            other.bounded(),
        ensures
            r == boxes_intersect(
                self.top_spec(),
                self.right_spec(),
                self.bot_spec(),
                self.left_spec(),
                other.top_spec(),
                other.right_spec(),
                other.bot_spec(),
                other.left_spec(),
            ),
    {
        self.left() < other.right() && self.right() > other.left() && self.bot() < other.top()
            && self.top() > other.bot()
    }
}

/// An axis-aligned rectangle, anchored at its bottom-left corner.
#[derive(Clone, Copy, Debug, PartialEq, Eq, Structural)]
pub struct Rectangle {
    /// The bottom-left corner.
    pub position: Point2,
    /// Horizontal extent, never negative.
    pub width: i64,
    /// Vertical extent, never negative.
    pub height: i64,
}

impl AABB for Rectangle {
    open spec fn top_spec(&self) -> i64 {
        (self.position.y + self.height) as i64
    }

    open spec fn right_spec(&self) -> i64 {
        (self.position.x + self.width) as i64
    }

    open spec fn bot_spec(&self) -> i64 {
        self.position.y
    }

    open spec fn left_spec(&self) -> i64 {
        self.position.x
    }

    open spec fn bounded(&self) -> bool {
        &&& -COORD_MAX <= self.position.x <= COORD_MAX
        &&& -COORD_MAX <= self.position.y <= COORD_MAX
        &&& 0 <= self.width <= COORD_MAX
        &&& 0 <= self.height <= COORD_MAX
    }

    fn top(&self) -> (r: i64) {
        self.position.y + self.height
    }

    fn right(&self) -> (r: i64) {
        self.position.x + self.width
    }

    fn bot(&self) -> (r: i64) {
        self.position.y
    }

    fn left(&self) -> (r: i64) {
        self.position.x
    }
}

} // verus!
