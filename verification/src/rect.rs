//! Axis-aligned rectangles in screen space, and the clamped default frame.
use vstd::prelude::*;
use crate::constants::{MAX_FRAME_WIDTH, MAX_FRAME_HEIGHT};

verus! {

/// An axis-aligned rectangle: `x`/`y` is the top-left corner, and the
/// rectangle covers columns `x .. x + width` and rows `y .. y + height`.
#[derive(Debug, Clone, Copy, PartialEq, Eq, Structural)]
pub struct Rect {
    pub x: u16,
    pub y: u16,
    pub width: u16,
    pub height: u16,
}

/// Two rectangles overlap when their column ranges and their row ranges
/// both overlap (standard AABB intersection, on exact integer ranges).
pub open spec fn overlaps(a: Rect, b: Rect) -> bool {
    &&& a.x < b.x + b.width
    &&& b.x < a.x + a.width
    &&& a.y < b.y + b.height
    &&& b.y < a.y + a.height
}

impl Rect {
    pub fn new(x: u16, y: u16, width: u16, height: u16) -> (r: Rect)
        ensures
            r == (Rect { x, y, width, height }),
    {
        Rect { x, y, width, height }
    }

    /// AABB intersection test: true iff the two rectangles overlap on
    /// both axes.
    pub fn intersects(self, other: Rect) -> (r: bool)
        ensures
            r == overlaps(self, other),
    {
        (self.x as u32) < (other.x as u32) + (other.width as u32)
            && (other.x as u32) < (self.x as u32) + (self.width as u32)
            && (self.y as u32) < (other.y as u32) + (other.height as u32)
            && (other.y as u32) < (self.y as u32) + (self.height as u32)
    }
}

/// The frame the game draws into: the current terminal size, clamped to
/// the fixed maximum, anchored at the origin.
pub fn get_default_frame_rect(current_width: u16, current_height: u16) -> (r: Rect)
    ensures
        r.x == 0 && r.y == 0,
        r.width == (if current_width > MAX_FRAME_WIDTH { MAX_FRAME_WIDTH } else { current_width }),
        r.height == (if current_height > MAX_FRAME_HEIGHT {
            MAX_FRAME_HEIGHT
        } else {
            current_height
        }),
{
    let f_w = if current_width > MAX_FRAME_WIDTH {
        MAX_FRAME_WIDTH
    } else {
        current_width
    };

    let f_h = if current_height > MAX_FRAME_HEIGHT {
        MAX_FRAME_HEIGHT
    } else {
        current_height
    };

    Rect::new(0, 0, f_w, f_h)
}

} // verus!
