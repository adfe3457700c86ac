//! Where a context menu opens so that it stays on the screen.

use vstd::prelude::*;
use crate::geometry::clip_i32;

verus! {

/// The least distance between the menu and the edge of the window, in
/// pixels.
pub const MENU_MARGIN: i32 = 10;

/// Where a menu of `size` pixels opens along one axis of a window of `room`
/// pixels, when it was asked for at `at`: where it was asked for if it ends
/// within the window, and else so that it ends a margin before the window
/// does; in either case no nearer to the window's start than a margin.
pub open spec fn placed_along(at: int, size: int, room: int) -> int {
    let moved = if at + size > room {
        room - size - MENU_MARGIN
    } else {
        at
    };
    if moved < MENU_MARGIN {
        MENU_MARGIN as int
    } else {
        moved
    }
}

/// A menu that fits into the window with a margin on both sides opens
/// wholly inside the window, at least a margin from its start.
pub proof fn fitting_menu_stays_inside(at: int, size: int, room: int)
    requires
        0 <= size,
        size + 2 * MENU_MARGIN <= room,
    ensures
        MENU_MARGIN <= placed_along(at, size, room),
        placed_along(at, size, room) + size <= room,
{
}

/// A menu that was asked for where it fits opens where it was asked for.
pub proof fn fitting_place_is_kept(at: int, size: int, room: int)
    requires
        MENU_MARGIN <= at,
        at + size <= room,
    ensures
        placed_along(at, size, room) == at,
{
}

/// Where a menu opens along one axis.
fn place_along(at: i32, size: i32, room: i32) -> (placed: i32)
    ensures
        placed == clip_i32(placed_along(at as int, size as int, room as int)),
{
    let at: i64 = at as i64;
    let size: i64 = size as i64;
    let room: i64 = room as i64;
    let margin: i64 = MENU_MARGIN as i64;
    let moved: i64 = if at + size > room {
        room - size - margin
    } else {
        at
    };
    if moved < margin {
        MENU_MARGIN
    } else if moved > i32::MAX as i64 {
        i32::MAX
    } else {
        moved as i32
    }
}

/// Where a context menu of `width` by `height` pixels opens in a window of
/// `window_width` by `window_height` pixels, when it was asked for at
/// `(x, y)`: moved left and up as far as needed to end a margin before the
/// window does, and never nearer to the window's left and top than a margin.
pub fn place_menu(
    x: i32,
    y: i32,
    width: i32,
    height: i32,
    window_width: i32,
    window_height: i32,
) -> (placed: (i32, i32))
    ensures
        placed.0 == clip_i32(placed_along(x as int, width as int, window_width as int)),
        placed.1 == clip_i32(placed_along(y as int, height as int, window_height as int)),
{
    (place_along(x, width, window_width), place_along(y, height, window_height))
}

} // verus!
