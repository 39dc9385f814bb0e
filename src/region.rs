//! Selection rectangles and the clamp that keeps a crop inside a frame.
use vstd::prelude::*;

verus! {

/// A rectangle drawn by the user, in the physical pixels of one frame.
#[derive(Debug, Clone, Copy, PartialEq, Eq, Structural)]
pub struct SelectionCoords {
    pub x: u32,
    pub y: u32,
    pub width: u32,
    pub height: u32,
}

/// The part of a frame that is actually cut out.
#[derive(Debug, Clone, Copy, PartialEq, Eq, Structural)]
pub struct CropWindow {
    pub x: u32,
    pub y: u32,
    pub width: u32,
    pub height: u32,
}

pub open spec fn min_int(a: int, b: int) -> int {
    if a <= b {
        a
    } else {
        b
    }
}

/// `n - 1`, or 0 when `n` is 0.
pub open spec fn last_index(n: u32) -> int {
    if n == 0 {
        0
    } else {
        n - 1
    }
}

/// Origin first, then extent: the origin is pulled onto the last pixel at most,
/// and the extent is cut at the frame's edge.
pub open spec fn clamp_spec(c: SelectionCoords, frame_width: u32, frame_height: u32) -> CropWindow {
    let x = min_int(c.x as int, last_index(frame_width));
    let y = min_int(c.y as int, last_index(frame_height));
    CropWindow {
        x: x as u32,
        y: y as u32,
        width: min_int(c.width as int, frame_width - x) as u32,
        height: min_int(c.height as int, frame_height - y) as u32,
    }
}

/// Whether a selection lies wholly inside a frame of the given size.
pub open spec fn selection_inside(c: SelectionCoords, frame_width: u32, frame_height: u32) -> bool {
    &&& c.x + c.width <= frame_width
    &&& c.y + c.height <= frame_height
}

/// Whether a crop window lies wholly inside a frame of the given size.
pub open spec fn window_inside(w: CropWindow, frame_width: u32, frame_height: u32) -> bool {
    &&& w.x + w.width <= frame_width
    &&& w.y + w.height <= frame_height
}

/// Clamps a selection to a frame of `frame_width` by `frame_height` pixels.
pub fn clamp_selection(coords: &SelectionCoords, frame_width: u32, frame_height: u32) -> (r:
    CropWindow)
    ensures
        r == clamp_spec(*coords, frame_width, frame_height),
        window_inside(r, frame_width, frame_height),
{
    let x = if coords.x <= frame_width.saturating_sub(1) {
        coords.x
    } else {
        frame_width.saturating_sub(1)
    };
    let y = if coords.y <= frame_height.saturating_sub(1) {
        coords.y
    } else {
        frame_height.saturating_sub(1)
    };
    let room_x = frame_width - x;
    let room_y = frame_height - y;
    let width = if coords.width <= room_x {
        coords.width
    } else {
        room_x
    };
    let height = if coords.height <= room_y {
        coords.height
    } else {
        room_y
    };
    CropWindow { x, y, width, height }
}

/// A selection that lies inside the frame is cut out exactly as drawn.
pub proof fn lemma_inside_selection_kept(c: SelectionCoords, frame_width: u32, frame_height: u32)
    requires
        selection_inside(c, frame_width, frame_height),
        c.width > 0,
        c.height > 0,
    ensures
        clamp_spec(c, frame_width, frame_height) == (CropWindow {
            x: c.x,
            y: c.y,
            width: c.width,
            height: c.height,
        }),
{
}

/// Whatever the selection, the clamped window never leaves the frame, and on a
/// frame with pixels its origin is a pixel of the frame; a selection with a
/// non-zero extent keeps a non-zero extent.
pub proof fn lemma_clamp_within_bounds(c: SelectionCoords, frame_width: u32, frame_height: u32)
    ensures
        window_inside(clamp_spec(c, frame_width, frame_height), frame_width, frame_height),
        frame_width > 0 ==> clamp_spec(c, frame_width, frame_height).x < frame_width,
        frame_height > 0 ==> clamp_spec(c, frame_width, frame_height).y < frame_height,
        frame_width > 0 && c.width > 0 ==> clamp_spec(c, frame_width, frame_height).width > 0,
        frame_height > 0 && c.height > 0 ==> clamp_spec(c, frame_width, frame_height).height > 0,
{
}

} // verus!
