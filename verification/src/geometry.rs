//! Points, sizes and rectangles on the display.
use vstd::prelude::*;

verus! {

/// A position in pixels; `x` grows to the right, `y` downwards.
#[derive(Clone, Copy, Debug, PartialEq, Eq, Structural)]
pub struct Point {
    pub x: i32,
    pub y: i32,
}

/// An extent in pixels.
#[derive(Clone, Copy, Debug, PartialEq, Eq, Structural)]
pub struct Size {
    pub width: u32,
    pub height: u32,
}

/// An axis-aligned rectangle.
#[derive(Clone, Copy, Debug, PartialEq, Eq, Structural)]
pub struct Rectangle {
    pub top_left: Point,
    pub size: Size,
}

impl Point {
    /// The point at `(x, y)`.
    pub fn new(x: i32, y: i32) -> (r: Point)
        ensures
            r.x == x,
            r.y == y,
    {
        Point { x, y }
    }
}

impl Size {
    /// The extent `width` by `height`.
    pub fn new(width: u32, height: u32) -> (r: Size)
        ensures
            r.width == width,
            r.height == height,
    {
        Size { width, height }
    }
}

impl Rectangle {
    /// The rectangle with the given corner and extent.
    pub fn new(top_left: Point, size: Size) -> (r: Rectangle)
        ensures
            r.top_left == top_left,
            r.size == size,
    {
        Rectangle { top_left, size }
    }

    /// The first column right of the rectangle.
    pub open spec fn right(self) -> int {
        self.top_left.x + self.size.width
    }

    /// The first row below the rectangle.
    pub open spec fn bottom(self) -> int {
        self.top_left.y + self.size.height
    }

    /// Whether the pixel `(x, y)` lies inside.
    pub open spec fn holds(self, x: int, y: int) -> bool {
        &&& self.top_left.x <= x < self.right()
        &&& self.top_left.y <= y < self.bottom()
    }
}

} // verus!
