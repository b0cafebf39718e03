//! Integer geometry for layout and hit testing.

use vstd::prelude::*;

verus! {

/// A position in the toolkit's coordinate space, in layout units.
#[derive(Clone, Copy, Debug, PartialEq, Eq, Structural)]
pub struct Point {
    pub x: u64,
    pub y: u64,
}

/// An axis-aligned box: its top-left corner and its extent.
#[derive(Clone, Copy, Debug, PartialEq, Eq, Structural)]
pub struct Rectangle {
    pub x: u64,
    pub y: u64,
    pub width: u64,
    pub height: u64,
}

impl Rectangle {
    /// Whether `point` lies inside the rectangle. The left and top edges are
    /// inclusive, the right and bottom edges exclusive, so adjacent boxes
    /// never claim the same point.
    pub open spec fn spec_contains(self, point: Point) -> bool {
        &&& self.x <= point.x < self.x + self.width
        &&& self.y <= point.y < self.y + self.height
    }

    /// Hit test: does `point` fall inside this rectangle?
    pub fn contains(&self, point: Point) -> (r: bool)
        ensures
            r == self.spec_contains(point),
    {
        point.x >= self.x && point.x - self.x < self.width && point.y >= self.y && point.y
            - self.y < self.height
    }
}

} // verus!
