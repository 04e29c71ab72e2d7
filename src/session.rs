//! Geometry of the browser window that the login runs in.
use vstd::prelude::*;

verus! {

/// Outer width of the browser window, in pixels.
pub const WINDOW_WIDTH: u32 = 425;

/// Outer height of the browser window, in pixels.
pub const WINDOW_HEIGHT: u32 = 550;

/// Horizontal room that the window's frame takes.
pub const FRAME_WIDTH: u32 = 15;

/// Vertical room that the window's frame and toolbar take.
pub const FRAME_HEIGHT: u32 = 35;

/// The size of the page inside a window of the given outer size.
pub fn tab_size(width: u32, height: u32) -> (r: (u32, u32))
    requires
        width >= FRAME_WIDTH,
        height >= FRAME_HEIGHT,
    ensures
        r.0 == width - FRAME_WIDTH,
        r.1 == height - FRAME_HEIGHT,
{
    (width - FRAME_WIDTH, height - FRAME_HEIGHT)
}

} // verus!
