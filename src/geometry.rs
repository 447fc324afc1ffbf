//! Window geometry in fixed-point units.
//!
//! Coordinates and sizes are integers counting hundredths of a screen point,
//! so two values are "the same" when they differ by at most [`TOLERANCE`]
//! (a tenth of a point).
use vstd::prelude::*;

verus! {

/// Largest difference, in hundredths of a point, under which two
/// coordinates are considered equal.
pub const TOLERANCE: i64 = 10;

#[derive(Clone, Copy, Debug, PartialEq, Eq, Structural)]
pub struct Point {
    pub x: i32,
    pub y: i32,
}

#[derive(Clone, Copy, Debug, PartialEq, Eq, Structural)]
pub struct Size {
    pub width: i32,
    pub height: i32,
}

#[derive(Clone, Copy, Debug, PartialEq, Eq, Structural)]
pub struct Frame {
    pub origin: Point,
    pub size: Size,
}

/// Two coordinates lie within the tolerance of each other.
pub open spec fn near(a: int, b: int) -> bool {
    -(TOLERANCE as int) <= a - b <= TOLERANCE as int
}

pub open spec fn same_point(a: Point, b: Point) -> bool {
    near(a.x as int, b.x as int) && near(a.y as int, b.y as int)
}

pub open spec fn same_size(a: Size, b: Size) -> bool {
    near(a.width as int, b.width as int) && near(a.height as int, b.height as int)
}

pub open spec fn same_frame(a: Frame, b: Frame) -> bool {
    same_point(a.origin, b.origin) && same_size(a.size, b.size)
}

/// Whether the point lies inside the frame (left/top edges inclusive).
pub open spec fn frame_contains(f: Frame, p: Point) -> bool {
    f.origin.x <= p.x < f.origin.x + f.size.width && f.origin.y <= p.y < f.origin.y
        + f.size.height
}

/// Half of a length, rounded towards zero.
pub open spec fn half(v: int) -> int {
    if v >= 0 {
        v / 2
    } else {
        -((-v) / 2)
    }
}

/// Centre of a frame, rounded towards its origin.
pub open spec fn mid_of(f: Frame) -> (int, int) {
    (f.origin.x + half(f.size.width as int), f.origin.y + half(f.size.height as int))
}

pub fn half_of(v: i32) -> (r: i64)
    ensures
        r == half(v as int),
{
    let w: i64 = v as i64;
    if w >= 0 {
        w / 2
    } else {
        -((-w) / 2)
    }
}

pub fn is_within(a: i32, b: i32) -> (r: bool)
    ensures
        r == near(a as int, b as int),
{
    let d: i64 = a as i64 - b as i64;
    -TOLERANCE <= d && d <= TOLERANCE
}

impl Point {
    pub fn new(x: i32, y: i32) -> (r: Point)
        ensures
            r.x == x && r.y == y,
    {
        Point { x, y }
    }

    pub fn same_as(&self, other: &Point) -> (r: bool)
        ensures
            r == same_point(*self, *other),
    {
        is_within(self.x, other.x) && is_within(self.y, other.y)
    }
}

impl Size {
    pub fn new(width: i32, height: i32) -> (r: Size)
        ensures
            r.width == width && r.height == height,
    {
        Size { width, height }
    }

    pub fn same_as(&self, other: &Size) -> (r: bool)
        ensures
            r == same_size(*self, *other),
    {
        is_within(self.width, other.width) && is_within(self.height, other.height)
    }
}

impl Frame {
    pub fn new(origin: Point, size: Size) -> (r: Frame)
        ensures
            r.origin == origin && r.size == size,
    {
        Frame { origin, size }
    }

    pub fn same_as(&self, other: &Frame) -> (r: bool)
        ensures
            r == same_frame(*self, *other),
    {
        self.origin.same_as(&other.origin) && self.size.same_as(&other.size)
    }

    /// Centre of the frame, or `None` where it does not fit in `i32`.
    pub fn mid(&self) -> (r: Option<Point>)
        ensures
            r matches Some(p) ==> (p.x as int, p.y as int) == mid_of(*self),
            r is None ==> !(i32::MIN <= mid_of(*self).0 <= i32::MAX && i32::MIN <= mid_of(
                *self,
            ).1 <= i32::MAX),
    {
        let x: i64 = self.origin.x as i64 + half_of(self.size.width);
        let y: i64 = self.origin.y as i64 + half_of(self.size.height);
        if i32::MIN as i64 <= x && x <= i32::MAX as i64 && i32::MIN as i64 <= y && y
            <= i32::MAX as i64 {
            Some(Point { x: x as i32, y: y as i32 })
        } else {
            None
        }
    }

    pub fn contains(&self, p: &Point) -> (r: bool)
        ensures
            r == frame_contains(*self, *p),
    {
        let x0: i64 = self.origin.x as i64;
        let y0: i64 = self.origin.y as i64;
        x0 <= p.x as i64 && (p.x as i64) < x0 + self.size.width as i64 && y0 <= p.y as i64
            && (p.y as i64) < y0 + self.size.height as i64
    }
}

} // verus!
