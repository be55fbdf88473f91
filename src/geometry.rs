use vstd::prelude::*;

verus! {

/// Whether an integer is representable as an `i64` length.
pub open spec fn fits_i64(v: int) -> bool {
    i64::MIN <= v <= i64::MAX
}

/// A coordinate in layout units.
#[derive(Clone, Copy, Debug, PartialEq, Eq, Structural)]
pub struct Point2D {
    pub x: i64,
    pub y: i64,
}

/// A width and a height in layout units.
#[derive(Clone, Copy, Debug, PartialEq, Eq, Structural)]
pub struct Size2D {
    pub width: i64,
    pub height: i64,
}

/// A rectangle: its top-left corner and its size.
#[derive(Clone, Copy, Debug, PartialEq, Eq, Structural)]
pub struct Area {
    pub origin: Point2D,
    pub size: Size2D,
}

impl Point2D {
    pub fn new(x: i64, y: i64) -> (r: Point2D)
        ensures
            r.x == x,
            r.y == y,
    {
        Point2D { x, y }
    }
}

impl Size2D {
    pub fn new(width: i64, height: i64) -> (r: Size2D)
        ensures
            r.width == width,
            r.height == height,
    {
        Size2D { width, height }
    }
}

impl Area {
    pub fn new(origin: Point2D, size: Size2D) -> (r: Area)
        ensures
            r.origin == origin,
            r.size == size,
    {
        Area { origin, size }
    }

    pub open spec fn spec_min_x(self) -> int {
        self.origin.x as int
    }

    pub open spec fn spec_max_x(self) -> int {
        self.origin.x + self.size.width
    }

    pub open spec fn spec_min_y(self) -> int {
        self.origin.y as int
    }

    pub open spec fn spec_max_y(self) -> int {
        self.origin.y + self.size.height
    }

    /// Left edge.
    pub fn min_x(&self) -> (r: i64)
        ensures
            r == self.spec_min_x(),
    {
        self.origin.x
    }

    /// Right edge; the sum must be representable.
    pub fn max_x(&self) -> (r: i64)
        requires
            fits_i64(self.spec_max_x()),
        ensures
            r == self.spec_max_x(),
    {
        self.origin.x + self.size.width
    }

    /// Top edge.
    pub fn min_y(&self) -> (r: i64)
        ensures
            r == self.spec_min_y(),
    {
        self.origin.y
    }

    /// Bottom edge; the sum must be representable.
    pub fn max_y(&self) -> (r: i64)
        requires
            fits_i64(self.spec_max_y()),
        ensures
            r == self.spec_max_y(),
    {
        self.origin.y + self.size.height
    }
}

} // verus!
