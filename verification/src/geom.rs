use vstd::prelude::*;

verus! {

/// A point in screen coordinates.
#[derive(Clone, Copy, Debug, PartialEq, Eq, Structural)]
pub struct Point {
    pub x: i32,
    pub y: i32,
}

/// An axis-aligned rectangle: its top-left corner and its size.
#[derive(Clone, Copy, Debug, PartialEq, Eq, Structural)]
pub struct Rect {
    pub x: i32,
    pub y: i32,
    pub w: u32,
    pub h: u32,
}

/// The size of an image or of an icon.
#[derive(Clone, Copy, Debug, PartialEq, Eq, Structural)]
pub struct Size {
    pub w: u32,
    pub h: u32,
}

/// The stylesheet values that layout reads.
#[derive(Clone, Copy, Debug, PartialEq, Eq, Structural)]
pub struct UiMetrics {
    /// Horizontal margin between a view and the screen edge or its neighbour.
    pub margin_x: i32,
    /// Vertical margin between a view and the screen edge or its neighbour.
    pub margin_y: i32,
    /// Vertical padding of a list row.
    pub padding_y: i32,
    /// Size of the UI font, in pixels.
    pub ui_font_size: u32,
}

/// Half of `v`, rounded toward zero, as integer division rounds.
pub open spec fn half(v: int) -> int {
    if v >= 0 { v / 2 } else { -((-v) / 2) }
}

impl Point {
    pub fn new(x: i32, y: i32) -> (p: Point)
        ensures
            p.x == x,
            p.y == y,
    {
        Point { x, y }
    }

    pub fn zero() -> (p: Point)
        ensures
            p.x == 0,
            p.y == 0,
    {
        Point { x: 0, y: 0 }
    }
}

impl Rect {
    pub fn new(x: i32, y: i32, w: u32, h: u32) -> (r: Rect)
        ensures
            r.x == x,
            r.y == y,
            r.w == w,
            r.h == h,
    {
        Rect { x, y, w, h }
    }
}

impl Size {
    pub fn new(w: u32, h: u32) -> (s: Size)
        ensures
            s.w == w,
            s.h == h,
    {
        Size { w, h }
    }
}

} // verus!
