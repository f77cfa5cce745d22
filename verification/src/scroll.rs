//! Horizontal scroll-to-caret for a clipped single-line field.
//!
//! Positions are in layout units along the shaped text. The visible window
//! starts at the scroll offset and is `width` wide; the policy snaps the
//! window start to a caret left of it, snaps the window end to a caret right
//! of it, and then clamps the start into `[0, content_width - width]`.

use vstd::prelude::*;

verus! {

/// The window start after keeping the caret visible: snapped to the caret on
/// either side, then clamped to the content.
pub open spec fn scroll_target(offset: u64, cursor_x: u64, width: u64, content_width: u64) -> int {
    let moved: int = if cursor_x < offset {
        cursor_x as int
    } else if cursor_x - offset > width {
        cursor_x - width
    } else {
        offset as int
    };
    let upper: int = if content_width >= width {
        content_width - width
    } else {
        0
    };
    if moved > upper {
        upper
    } else {
        moved
    }
}

/// Recompute the scroll offset so the caret stays inside the visible window.
///
/// When the caret sits beyond the window's right edge and the content is at
/// least as wide as the caret position, the new window's right edge lands on
/// the caret exactly; the window start never leaves `[0, content_width]`.
pub fn clamp_scroll_offset(offset: u64, cursor_x: u64, width: u64, content_width: u64) -> (r: u64)
    ensures
        r == scroll_target(offset, cursor_x, width, content_width),
        cursor_x >= offset && cursor_x - offset > width && cursor_x <= content_width ==> r + width
            == cursor_x,
        r <= content_width,
{
    let moved: u64 = if cursor_x < offset {
        cursor_x
    } else if cursor_x - offset > width {
        cursor_x - width
    } else {
        offset
    };
    let upper: u64 = if content_width >= width {
        content_width - width
    } else {
        0
    };
    if moved > upper {
        upper
    } else {
        moved
    }
}

} // verus!
