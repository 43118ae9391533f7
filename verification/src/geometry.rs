//! Points and rectangles on the layout grid.

use vstd::prelude::*;

verus! {

/// A position on the layout grid.
#[derive(Clone, Copy, Debug, PartialEq, Eq, Structural)]
pub struct Point {
    pub x: i32,
    pub y: i32,
}

/// An axis-aligned rectangle on the layout grid.
#[derive(Clone, Copy, Debug, PartialEq, Eq, Structural)]
pub struct Rectangle {
    /// Horizontal position of the top-left corner.
    pub x: i32,
    /// Vertical position of the top-left corner.
    pub y: i32,
    pub width: i32,
    pub height: i32,
}

/// A rectangle with unbounded coordinates: the mathematical model of
/// [`Rectangle`] and of every area derived from one.
pub struct Region {
    pub x: int,
    pub y: int,
    pub width: int,
    pub height: int,
}

impl Region {
    /// Whether `point` lies inside the region. All four edges belong to it.
    pub open spec fn contains(self, point: Point) -> bool {
        &&& self.x <= point.x <= self.x + self.width
        &&& self.y <= point.y <= self.y + self.height
    }
}

impl View for Rectangle {
    type V = Region;

    open spec fn view(&self) -> Region {
        Region { x: self.x as int, y: self.y as int, width: self.width as int, height: self.height as int }
    }
}

impl Rectangle {
    /// Returns true if `point` lies inside the rectangle, edges included.
    pub fn contains(&self, point: Point) -> (inside: bool)
        ensures
            inside == self@.contains(point),
    {
        let x: i64 = point.x as i64;
        let y: i64 = point.y as i64;
        self.x as i64 <= x && x <= self.x as i64 + self.width as i64 && self.y as i64 <= y && y
            <= self.y as i64 + self.height as i64
    }
}

/// Room kept free on the four sides of a piece of content.
#[derive(Clone, Copy, Debug, PartialEq, Eq, Structural)]
pub struct Padding {
    pub top: i32,
    pub right: i32,
    pub bottom: i32,
    pub left: i32,
}

impl Padding {
    /// The same room on all four sides.
    pub fn new(padding: i32) -> (all: Padding)
        ensures
            all == (Padding { top: padding, right: padding, bottom: padding, left: padding }),
    {
        Padding { top: padding, right: padding, bottom: padding, left: padding }
    }
}

} // verus!
