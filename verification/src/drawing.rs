//! Drawing helpers for the graphics modes: octant transforms, the
//! Bresenham line walk, rectangles, and triangle rasterization.

use vstd::prelude::*;

pub mod bresenham;
pub mod device;
pub mod octant;

pub use bresenham::Bresenham;
pub use octant::Octant;

verus! {

/// A point in 2D space.
pub type Point<T> = (T, T);

/// A point as a pair of mathematical integers.
pub open spec fn point_int(p: Point<isize>) -> (int, int) {
    (p.0 as int, p.1 as int)
}

/// An axis-aligned rectangle, given by its top-left corner and size.
#[derive(Debug, Copy, Clone, PartialEq, Eq, Structural)]
pub struct Rectangle {
    /// Leftmost column.
    pub x: usize,
    /// Topmost row.
    pub y: usize,
    /// Width in pixels.
    pub width: usize,
    /// Height in pixels.
    pub height: usize,
}

impl Rectangle {
    /// A rectangle from its corner and size.
    pub fn new(x: usize, y: usize, width: usize, height: usize) -> (r: Rectangle)
        ensures
            r == (Rectangle { x, y, width, height }),
    {
        Rectangle { x, y, width, height }
    }

    /// The row just below the rectangle.
    pub fn bottom(&self) -> (r: usize)
        requires
            self.y + self.height <= usize::MAX,
        ensures
            r == self.y + self.height,
    {
        self.y + self.height
    }

    /// The column just right of the rectangle.
    pub fn right(&self) -> (r: usize)
        requires
            self.x + self.width <= usize::MAX,
        ensures
            r == self.x + self.width,
    {
        self.x + self.width
    }
}

/// Whether `p` lies on the outline of `r`: its leftmost column, its
/// `right()` column, its topmost row or its `bottom()` row, corners
/// included.  This is exactly the set of points on the four
/// corner-to-corner edge lines that the devices' outline drawing walks.
pub open spec fn rect_outline_contains(r: Rectangle, p: (int, int)) -> bool {
    let left = r.x as int;
    let right = r.x as int + r.width as int;
    let top = r.y as int;
    let bottom = r.y as int + r.height as int;
    &&& left <= p.0 <= right
    &&& top <= p.1 <= bottom
    &&& (p.0 == left || p.0 == right || p.1 == top || p.1 == bottom)
}

} // verus!
