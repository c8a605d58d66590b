//! Plain data mirrors of the platform's point, rectangle and message records.
use vstd::prelude::*;

verus! {

/// A point in screen or client coordinates.
#[derive(Debug, Default, Clone, Copy, PartialEq, Eq)]
pub struct Point {
    pub x: i32,
    pub y: i32,
}

/// A rectangle given by its four edges.
#[derive(Debug, Default, Clone, Copy, PartialEq, Eq)]
pub struct Rect {
    pub left: i32,
    pub top: i32,
    pub right: i32,
    pub bottom: i32,
}

/// Absolute value of an integer.
pub open spec fn abs_spec(x: int) -> int {
    if x < 0 { -x } else { x }
}

fn abs_i32(x: i32) -> (r: i32)
    requires
        x > i32::MIN,
    ensures
        r as int == abs_spec(x as int),
{
    if x < 0 { -x } else { x }
}

impl Rect {
    /// Width of a rectangle whose edges straddle the origin: the sum of the
    /// distances of the left and right edges from it.
    pub open spec fn width_spec(&self) -> int {
        abs_spec(self.left as int) + abs_spec(self.right as int)
    }

    /// Height, measured as `width_spec` is, from the top and bottom edges.
    pub open spec fn height_spec(&self) -> int {
        abs_spec(self.top as int) + abs_spec(self.bottom as int)
    }

    pub fn width(&self) -> (r: i32)
        requires
            self.left > i32::MIN,
            self.right > i32::MIN,
            self.width_spec() <= i32::MAX,
        ensures
            r as int == self.width_spec(),
    {
        abs_i32(self.left) + abs_i32(self.right)
    }

    pub fn height(&self) -> (r: i32)
        requires
            self.top > i32::MIN,
            self.bottom > i32::MIN,
            self.height_spec() <= i32::MAX,
        ensures
            r as int == self.height_spec(),
    {
        abs_i32(self.top) + abs_i32(self.bottom)
    }
}

/// One retrieved platform message: target handle, message code, the two
/// machine-word parameters, timestamp and cursor position.
#[derive(Debug, Default, Clone, Copy, PartialEq, Eq)]
pub struct MSG {
    pub hwnd: isize,
    pub message: u32,
    pub w_param: usize,
    pub l_param: isize,
    pub time: u32,
    pub pt: Point,
}

/// Window metadata as the platform reports it.
#[derive(Debug, Default, Clone, Copy, PartialEq, Eq)]
pub struct WindowInfo {
    pub size: u32,
    pub window: Rect,
    pub client: Rect,
    pub style: u32,
    pub ex_style: u32,
    pub window_status: u32,
    pub window_borders_x: u32,
    pub window_borders_y: u32,
    pub window_type: u16,
    pub creator_version: u16,
}

} // verus!
