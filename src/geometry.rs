use vstd::prelude::*;

verus! {

/// An axis-aligned rectangle in whole logical units: `left <= x < right`, `top <= y < bottom`.
#[derive(Clone, Copy, Debug, PartialEq, Eq, Structural)]
pub struct Rect {
    pub left: i32,
    pub top: i32,
    pub right: i32,
    pub bottom: i32,
}

/// An affine transform, entries in whole units, as the rendering engine takes it.
#[derive(Clone, Copy, Debug, PartialEq, Eq, Structural)]
pub struct Matrix {
    pub scale_x: i32,
    pub skew_x: i32,
    pub trans_x: i32,
    pub skew_y: i32,
    pub scale_y: i32,
    pub trans_y: i32,
}

pub open spec fn identity_matrix() -> Matrix {
    Matrix { scale_x: 1, skew_x: 0, trans_x: 0, skew_y: 0, scale_y: 1, trans_y: 0 }
}

pub open spec fn rect_is_empty(r: Rect) -> bool {
    !(r.left < r.right && r.top < r.bottom)
}

pub open spec fn rect_width(r: Rect) -> int {
    if r.left < r.right { r.right - r.left } else { 0 }
}

pub open spec fn rect_height(r: Rect) -> int {
    if r.top < r.bottom { r.bottom - r.top } else { 0 }
}

/// Two rectangles overlap: both are non-empty and they share an interior point.
pub open spec fn rects_intersect(a: Rect, b: Rect) -> bool {
    !rect_is_empty(a) && !rect_is_empty(b) && a.left < b.right && b.left < a.right && a.top
        < b.bottom && b.top < a.bottom
}

impl Matrix {
    pub fn identity() -> (r: Matrix)
        ensures
            r == identity_matrix(),
    {
        Matrix { scale_x: 1, skew_x: 0, trans_x: 0, skew_y: 0, scale_y: 1, trans_y: 0 }
    }
}

impl Rect {
    pub fn new(left: i32, top: i32, right: i32, bottom: i32) -> (r: Rect)
        ensures
            r == (Rect { left, top, right, bottom }),
    {
        Rect { left, top, right, bottom }
    }

    /// A rectangle of the given size at the origin.
    pub fn from_size(width: i32, height: i32) -> (r: Rect)
        ensures
            r == (Rect { left: 0, top: 0, right: width, bottom: height }),
    {
        Rect { left: 0, top: 0, right: width, bottom: height }
    }

    pub fn is_empty(&self) -> (r: bool)
        ensures
            r == rect_is_empty(*self),
    {
        !(self.left < self.right && self.top < self.bottom)
    }

    pub fn width(&self) -> (r: u32)
        ensures
            r == rect_width(*self),
    {
        if self.left < self.right {
            (self.right as i64 - self.left as i64) as u32
        } else {
            0
        }
    }

    pub fn height(&self) -> (r: u32)
        ensures
            r == rect_height(*self),
    {
        if self.top < self.bottom {
            (self.bottom as i64 - self.top as i64) as u32
        } else {
            0
        }
    }

    pub fn intersects(&self, other: &Rect) -> (r: bool)
        ensures
            r == rects_intersect(*self, *other),
    {
        !self.is_empty() && !other.is_empty() && self.left < other.right && other.left < self.right
            && self.top < other.bottom && other.top < self.bottom
    }
}

} // verus!
