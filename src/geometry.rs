//! Points and rectangles in surface coordinates.
use vstd::prelude::*;

verus! {

/// A position in logical pixels.
#[derive(Debug, Clone, Copy, PartialEq, Eq, Structural)]
pub struct Point {
    pub x: i32,
    pub y: i32,
}

/// A rectangle: its top-left corner and its size.
#[derive(Debug, Clone, Copy, PartialEq, Eq, Structural)]
pub struct Rect {
    pub x: i32,
    pub y: i32,
    pub width: i32,
    pub height: i32,
}

/// Whether `p` lies inside `r`.
pub open spec fn rect_contains(r: Rect, p: Point) -> bool {
    r.x <= p.x < r.x + r.width && r.y <= p.y < r.y + r.height
}

/// `r` with each side at least one pixel long.
pub open spec fn at_least_one(r: Rect) -> Rect {
    Rect {
        x: r.x,
        y: r.y,
        width: if r.width < 1 {
            1
        } else {
            r.width
        },
        height: if r.height < 1 {
            1
        } else {
            r.height
        },
    }
}

/// `v` held to the range of `i32`.
pub open spec fn clamp_i32(v: int) -> i32 {
    if v < i32::MIN {
        i32::MIN
    } else if v > i32::MAX {
        i32::MAX
    } else {
        v as i32
    }
}

/// `v` held to the range of `i32`.
pub fn clamp_to_i32(v: i64) -> (r: i32)
    ensures
        r == clamp_i32(v as int),
{
    if v < i32::MIN as i64 {
        i32::MIN
    } else if v > i32::MAX as i64 {
        i32::MAX
    } else {
        v as i32
    }
}

/// Whether `p` lies inside `r`.
pub fn contains_point(r: Rect, p: Point) -> (b: bool)
    ensures
        b == rect_contains(r, p),
{
    let px = p.x as i64;
    let py = p.y as i64;
    let rx = r.x as i64;
    let ry = r.y as i64;
    rx <= px && px < rx + r.width as i64 && ry <= py && py < ry + r.height as i64
}

/// Gives each side of `r` a length of at least one pixel.
pub fn clamp_to_one(r: Rect) -> (c: Rect)
    ensures
        c == at_least_one(r),
{
    Rect {
        x: r.x,
        y: r.y,
        width: if r.width < 1 {
            1
        } else {
            r.width
        },
        height: if r.height < 1 {
            1
        } else {
            r.height
        },
    }
}

} // verus!
