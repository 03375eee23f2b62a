//! Points and rectangles in whole logical pixels.
use vstd::prelude::*;

verus! {

/// A point.
#[derive(Clone, Copy, Debug, PartialEq, Eq, Structural)]
pub struct Point {
    pub x: i32,
    pub y: i32,
}

/// A width and a height.
#[derive(Clone, Copy, Debug, PartialEq, Eq, Structural)]
pub struct Size {
    pub w: i32,
    pub h: i32,
}

/// A rectangle: its upper left corner and its size.
#[derive(Clone, Copy, Debug, PartialEq, Eq, Structural)]
pub struct Rectangle {
    pub loc: Point,
    pub size: Size,
}

/// Whether `x` is a value of the coordinate type.
pub open spec fn fits(x: int) -> bool {
    i32::MIN <= x <= i32::MAX
}

impl Rectangle {
    pub fn new(x: i32, y: i32, w: i32, h: i32) -> (r: Rectangle)
        ensures
            r == (Rectangle { loc: Point { x, y }, size: Size { w, h } }),
    {
        Rectangle { loc: Point { x, y }, size: Size { w, h } }
    }

    /// The rectangle moved by `by`.
    pub open spec fn spec_moved(self, by: Point) -> Rectangle {
        Rectangle {
            loc: Point { x: (self.loc.x + by.x) as i32, y: (self.loc.y + by.y) as i32 },
            size: self.size,
        }
    }

    /// Whether the rectangle can be moved by `by`.
    pub open spec fn can_move(self, by: Point) -> bool {
        fits(self.loc.x + by.x) && fits(self.loc.y + by.y)
    }

    /// The rectangle moved by `by`.
    pub fn moved(&self, by: Point) -> (r: Rectangle)
        requires
            self.can_move(by),
        ensures
            r == self.spec_moved(by),
    {
        Rectangle {
            loc: Point { x: self.loc.x + by.x, y: self.loc.y + by.y },
            size: self.size,
        }
    }
}

/// A rectangle that is moved keeps its size, and its corner moves by as much in each direction;
/// moving it back leads to where it was.
pub proof fn moving_keeps_the_size(rect: &Rectangle, by: Point, moved: Rectangle)
    requires
        rect.can_move(by),
        call_ensures(Rectangle::moved, (rect, by), moved),
    ensures
        moved.size == rect.size,
        moved.loc.x - rect.loc.x == by.x,
        moved.loc.y - rect.loc.y == by.y,
{
    assert(call_requires(Rectangle::moved, (rect, by)));
}

} // verus!
