//! Integer points, sizes and rectangles on the display grid.

use vstd::prelude::*;

verus! {

/// Width of the display in pixels.
pub const TFT_DISPLAY_WIDTH: u16 = 320;

/// Height of the display in pixels.
pub const TFT_DISPLAY_HEIGHT: u16 = 240;

/// A position on the display grid. The origin is the top-left corner, `x`
/// grows to the right and `y` grows downwards.
#[derive(Clone, Copy, Debug, PartialEq, Eq, Structural)]
pub struct Point {
    pub x: i32,
    pub y: i32,
}

/// The extent of a rectangle in pixels.
#[derive(Clone, Copy, Debug, PartialEq, Eq, Structural)]
pub struct Size {
    pub width: u32,
    pub height: u32,
}

/// An axis-aligned block of pixels: `size.width` columns starting at
/// `top_left.x` and `size.height` rows starting at `top_left.y`.
#[derive(Clone, Copy, Debug, PartialEq, Eq, Structural)]
pub struct Rectangle {
    pub top_left: Point,
    pub size: Size,
}

/// The pixels of the block with top-left corner `(x, y)`, `w` columns and `h` rows.
pub open spec fn block(x: int, y: int, w: int, h: int) -> Set<(int, int)> {
    Set::new(|p: (int, int)| x <= p.0 < x + w && y <= p.1 < y + h)
}

/// A number held to what a signed 32-bit coordinate can be.
pub open spec fn saturated(v: int) -> int {
    if v < i32::MIN {
        i32::MIN as int
    } else if v > i32::MAX {
        i32::MAX as int
    } else {
        v
    }
}

/// `v` held to what a signed 32-bit coordinate can be.
pub fn saturate(v: i64) -> (r: i32)
    ensures
        r == saturated(v as int),
{
    if v < i32::MIN as i64 {
        i32::MIN
    } else if v > i32::MAX as i64 {
        i32::MAX
    } else {
        v as i32
    }
}

impl Point {
    /// The point in column `x` of row `y`.
    pub fn new(x: i32, y: i32) -> (p: Point)
        ensures
            p.x == x,
            p.y == y,
    {
        Point { x, y }
    }
}

impl Size {
    /// The extent of `width` columns and `height` rows.
    pub fn new(width: u32, height: u32) -> (s: Size)
        ensures
            s.width == width,
            s.height == height,
    {
        Size { width, height }
    }
}

impl Rectangle {
    /// The rectangle of the given size with its top-left corner at
    /// `top_left`.
    pub fn new(top_left: Point, size: Size) -> (r: Rectangle)
        ensures
            r.top_left == top_left,
            r.size == size,
    {
        Rectangle { top_left, size }
    }

    /// The set of pixels this rectangle covers.
    pub open spec fn pixels(self) -> Set<(int, int)> {
        block(
            self.top_left.x as int,
            self.top_left.y as int,
            self.size.width as int,
            self.size.height as int,
        )
    }

    /// Whether the pixel at `p` lies inside the rectangle.
    pub fn contains(&self, p: Point) -> (inside: bool)
        ensures
            inside == self.pixels().contains((p.x as int, p.y as int)),
    {
        let px: i64 = p.x as i64;
        let py: i64 = p.y as i64;
        let left: i64 = self.top_left.x as i64;
        let top: i64 = self.top_left.y as i64;
        left <= px && px < left + self.size.width as i64 && top <= py && py < top
            + self.size.height as i64
    }
}

} // verus!
