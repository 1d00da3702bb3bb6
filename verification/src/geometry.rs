//! Screen geometry: points with saturating signed coordinates, sizes with
//! saturating unsigned dimensions, and rectangles.

use vstd::prelude::*;

use crate::numeric::{Si32, Su32};

verus! {

/// A point on the screen.
#[derive(Clone, Copy, Debug, PartialEq, Eq, Structural)]
pub struct Point {
    /// Horizontal coordinate.
    pub x: Si32,
    /// Vertical coordinate.
    pub y: Si32,
}

/// A size in pixels.
#[derive(Clone, Copy, Debug, PartialEq, Eq, Structural)]
pub struct Size {
    /// Width in pixels.
    pub width: Su32,
    /// Height in pixels.
    pub height: Su32,
}

/// A rectangle given by its top-left corner and its size.
#[derive(Clone, Copy, Debug, PartialEq, Eq, Structural)]
pub struct Rect {
    /// Top-left corner.
    pub top_left: Point,
    /// Size.
    pub size: Size,
}

/// Creates a point.
pub fn point(x: i32, y: i32) -> (p: Point)
    ensures
        p.x@ == x,
        p.y@ == y,
{
    Point { x: Si32::new(x), y: Si32::new(y) }
}

/// Creates a size.
pub fn size(width: u32, height: u32) -> (s: Size)
    ensures
        s.width@ == width,
        s.height@ == height,
{
    Size { width: Su32::new(width), height: Su32::new(height) }
}

impl Rect {
    /// Creates a rectangle.
    pub fn new(top_left: Point, size: Size) -> (r: Self)
        ensures
            r == (Rect { top_left, size }),
    {
        Rect { top_left, size }
    }

    /// Left edge.
    pub open spec fn left(&self) -> int {
        self.top_left.x@
    }

    /// Top edge.
    pub open spec fn top(&self) -> int {
        self.top_left.y@
    }

    /// Right edge, excluded from the rectangle.
    pub open spec fn right(&self) -> int {
        self.top_left.x@ + self.size.width@
    }

    /// Bottom edge, excluded from the rectangle.
    pub open spec fn bottom(&self) -> int {
        self.top_left.y@ + self.size.height@
    }

    /// Whether the rectangle holds a point.
    pub open spec fn holds(&self, p: Point) -> bool {
        self.left() <= p.x@ < self.right() && self.top() <= p.y@ < self.bottom()
    }

    /// The number of pixels in the rectangle.
    pub open spec fn area(&self) -> int {
        self.size.width@ * self.size.height@
    }

    /// Whether this rectangle holds a point.
    pub fn contains(&self, p: Point) -> (b: bool)
        ensures
            b == self.holds(p),
    {
        let px = p.x.value as i64;
        let py = p.y.value as i64;
        let left = self.top_left.x.value as i64;
        let top = self.top_left.y.value as i64;
        left <= px && px < left + self.size.width.value as i64 && top <= py && py < top
            + self.size.height.value as i64
    }

    /// The number of pixels in this rectangle.
    pub fn surface(&self) -> (a: u64)
        ensures
            a == self.area(),
    {
        let w = self.size.width.value as u64;
        let h = self.size.height.value as u64;
        assert(w * h <= 0xffff_ffff_ffff_ffff) by (nonlinear_arith)
            requires
                w <= 0xffff_ffff,
                h <= 0xffff_ffff,
        ;
        w * h
    }

    /// The right edge of this rectangle.
    pub fn right_edge(&self) -> (e: i64)
        ensures
            e == self.right(),
    {
        self.top_left.x.value as i64 + self.size.width.value as i64
    }

    /// The bottom edge of this rectangle.
    pub fn bottom_edge(&self) -> (e: i64)
        ensures
            e == self.bottom(),
    {
        self.top_left.y.value as i64 + self.size.height.value as i64
    }
}

/// The part of a rectangle that lies at non-negative coordinates, as a
/// corner and a size.
pub open spec fn clamped_rect(r: Rect) -> (int, int, int, int) {
    let x = if r.left() < 0 { 0 } else { r.left() };
    let y = if r.top() < 0 { 0 } else { r.top() };
    let w = if r.right() - x < 0 { 0 } else { r.right() - x };
    let h = if r.bottom() - y < 0 { 0 } else { r.bottom() - y };
    (x, y, w, h)
}

impl Rect {
    /// The part of this rectangle that lies at non-negative coordinates, as
    /// a corner and a size.
    pub fn clamped(&self) -> (r: (u32, u32, u32, u32))
        ensures
            (r.0 as int, r.1 as int, r.2 as int, r.3 as int) == clamped_rect(*self),
    {
        let left = self.top_left.x.value as i64;
        let top = self.top_left.y.value as i64;
        let right = left + self.size.width.value as i64;
        let bottom = top + self.size.height.value as i64;
        let x: i64 = if left < 0 { 0 } else { left };
        let y: i64 = if top < 0 { 0 } else { top };
        let w: i64 = if right - x < 0 { 0 } else { right - x };
        let h: i64 = if bottom - y < 0 { 0 } else { bottom - y };
        (x as u32, y as u32, w as u32, h as u32)
    }
}

/// Twice the center of a rectangle, horizontally: `2 * left + width`.
pub open spec fn double_center_x(r: Rect) -> int {
    2 * r.left() + r.size.width@
}

/// Twice the center of a rectangle, vertically: `2 * top + height`.
pub open spec fn double_center_y(r: Rect) -> int {
    2 * r.top() + r.size.height@
}

} // verus!
