use vstd::prelude::*;

verus! {

/// Width of the window, in pixels.
pub const WINDOW_WIDTH: i64 = 640;

/// Height of the window, in pixels.
pub const WINDOW_HEIGHT: i64 = 480;

/// Distance a paddle travels in one step, in pixels.
pub const PADDLE_SPEED: i64 = 8;

/// Horizontal gap between each paddle and its edge of the window, in pixels.
pub const PADDLE_MARGIN: i64 = 16;

/// Number of position units in one pixel: positions are kept in half pixels.
pub const SUBPIXELS: i64 = 2;

/// A point on screen, top-left origin, in half pixels.
#[derive(Clone, Copy, Debug, PartialEq, Eq, Structural)]
pub struct Point {
    pub x: i64,
    pub y: i64,
}

impl Point {
    pub fn new(x: i64, y: i64) -> (r: Point)
        ensures
            r.x == x,
            r.y == y,
    {
        Point { x, y }
    }
}

/// The size of an image, in pixels.
#[derive(Clone, Copy, Debug, PartialEq, Eq, Structural)]
pub struct Extent {
    pub width: u32,
    pub height: u32,
}

impl Extent {
    pub fn new(width: u32, height: u32) -> (r: Extent)
        ensures
            r.width == width,
            r.height == height,
    {
        Extent { width, height }
    }
}

} // verus!
