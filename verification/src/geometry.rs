//! Integer points of the playfield and of the screen, `y` growing downward.

use vstd::prelude::*;

use crate::Number;

verus! {

/// A position: the top-left anchor of a frame, or a cell of a grid.
#[derive(Copy, Clone, Debug, PartialEq, Eq, Structural)]
pub struct Point {
    pub x: Number,
    pub y: Number,
}

/// True when `v` can be held by a coordinate.
pub open spec fn fits(v: int) -> bool {
    Number::MIN <= v <= Number::MAX
}

impl Point {
    pub fn new(x: Number, y: Number) -> (p: Point)
        ensures
            p == (Point { x, y }),
    {
        Point { x, y }
    }

    /// The point moved right by `x`.
    pub fn add_x(&self, x: Number) -> (p: Point)
        requires
            fits(self.x + x),
        ensures
            p.x == self.x + x,
            p.y == self.y,
    {
        Point::new(self.x + x, self.y)
    }

    /// The point moved down by `y`.
    pub fn add_y(&self, y: Number) -> (p: Point)
        requires
            fits(self.y + y),
        ensures
            p.x == self.x,
            p.y == self.y + y,
    {
        Point::new(self.x, self.y + y)
    }

    /// The point moved left by `x`.
    pub fn sub_x(&self, x: Number) -> (p: Point)
        requires
            fits(self.x - x),
        ensures
            p.x == self.x - x,
            p.y == self.y,
    {
        Point::new(self.x - x, self.y)
    }

    /// The point moved up by `y`.
    pub fn sub_y(&self, y: Number) -> (p: Point)
        requires
            fits(self.y - y),
        ensures
            p.x == self.x,
            p.y == self.y - y,
    {
        Point::new(self.x, self.y - y)
    }

    /// The point with its column replaced by `x`.
    pub fn with_x(&self, x: Number) -> (p: Point)
        ensures
            p.x == x,
            p.y == self.y,
    {
        Point::new(x, self.y)
    }

    /// The point with its row replaced by `y`.
    pub fn with_y(&self, y: Number) -> (p: Point)
        ensures
            p.x == self.x,
            p.y == y,
    {
        Point::new(self.x, y)
    }
}

impl core::ops::Add for Point {
    type Output = Point;

    /// Componentwise sum.
    fn add(self, rhs: Point) -> (p: Point) {
        Point::new(self.x + rhs.x, self.y + rhs.y)
    }
}

impl vstd::std_specs::ops::AddSpecImpl for Point {
    open spec fn obeys_add_spec() -> bool {
        true
    }

    open spec fn add_req(self, rhs: Point) -> bool {
        fits(self.x + rhs.x) && fits(self.y + rhs.y)
    }

    open spec fn add_spec(self, rhs: Point) -> Point {
        Point { x: (self.x + rhs.x) as Number, y: (self.y + rhs.y) as Number }
    }
}

impl core::ops::Sub for Point {
    type Output = Point;

    /// Componentwise difference.
    fn sub(self, rhs: Point) -> (p: Point) {
        Point::new(self.x - rhs.x, self.y - rhs.y)
    }
}

impl vstd::std_specs::ops::SubSpecImpl for Point {
    open spec fn obeys_sub_spec() -> bool {
        true
    }

    open spec fn sub_req(self, rhs: Point) -> bool {
        fits(self.x - rhs.x) && fits(self.y - rhs.y)
    }

    open spec fn sub_spec(self, rhs: Point) -> Point {
        Point { x: (self.x - rhs.x) as Number, y: (self.y - rhs.y) as Number }
    }
}

} // verus!
