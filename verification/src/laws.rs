use vstd::prelude::*;
use crate::geometry::{abs_int, centering_computable, rect_height, rect_width, u32_bits_of_i32, Rect};
use crate::handle::{moves, resizes, sizebox_bit, style_with_sizebox, SWP_ASYNCWINDOWPOS, SWP_NOMOVE, SWP_NOSIZE, SWP_NOZORDER};
use crate::launcher::{initial_frame_of, launch_title_of, WindowDesc};

verus! {

/// Adding a window never changes the title a launch is announced with:
/// that is always the first window's.
pub proof fn add_window_keeps_launch_title<S>(windows: Seq<WindowDesc<S>>, window: WindowDesc<S>)
    requires
        windows.len() >= 1,
    ensures
        launch_title_of(windows.push(window)) == launch_title_of(windows),
{
    assert(windows.push(window)[0] == windows[0]);
}

/// Making a window resizable or not twice leaves it as the second request
/// says, whatever the first said.
pub proof fn resizable_last_request_wins(style: isize, first: bool, second: bool)
    ensures
        style_with_sizebox(style_with_sizebox(style, first), second) == style_with_sizebox(
            style,
            second,
        ),
{
    assert((style | 0x0004_0000isize) | 0x0004_0000isize == style | 0x0004_0000isize)
        by (bit_vector);
    assert((style & !0x0004_0000isize) | 0x0004_0000isize == style | 0x0004_0000isize)
        by (bit_vector);
    assert((style | 0x0004_0000isize) & !0x0004_0000isize == style & !0x0004_0000isize)
        by (bit_vector);
    assert((style & !0x0004_0000isize) & !0x0004_0000isize == style & !0x0004_0000isize)
        by (bit_vector);
}

/// Asking for the resizability a window already has leaves its style as
/// it is.
pub proof fn resizable_request_of_current_setting_is_no_change(style: isize)
    ensures
        style_with_sizebox(style, (style & sizebox_bit()) == sizebox_bit()) == style,
{
    assert((style & 0x0004_0000isize) == 0x0004_0000isize ==> style | 0x0004_0000isize == style)
        by (bit_vector);
    assert((style & 0x0004_0000isize) != 0x0004_0000isize ==> style & !0x0004_0000isize == style)
        by (bit_vector);
}

/// Moving a window keeps its size, and resizing it keeps its position.
pub proof fn move_keeps_size_and_resize_keeps_position()
    ensures
        moves(SWP_ASYNCWINDOWPOS | SWP_NOSIZE | SWP_NOZORDER),
        !resizes(SWP_ASYNCWINDOWPOS | SWP_NOSIZE | SWP_NOZORDER),
        resizes(SWP_ASYNCWINDOWPOS | SWP_NOMOVE | SWP_NOZORDER),
        !moves(SWP_ASYNCWINDOWPOS | SWP_NOMOVE | SWP_NOZORDER),
{
    assert((0x4000u32 | 0x0001u32 | 0x0004u32) & 0x0002u32 == 0) by (bit_vector);
    assert((0x4000u32 | 0x0001u32 | 0x0004u32) & 0x0001u32 != 0) by (bit_vector);
    assert((0x4000u32 | 0x0002u32 | 0x0004u32) & 0x0001u32 == 0) by (bit_vector);
    assert((0x4000u32 | 0x0002u32 | 0x0004u32) & 0x0002u32 != 0) by (bit_vector);
}

/// A window without a fixed position is centred on the desktop: the room
/// left on either side differs by at most one pixel on each axis.
pub proof fn unplaced_window_is_centered(desktop: Rect, width: i32, height: i32)
    requires
        centering_computable(desktop, width, height),
    ensures
        initial_frame_of(None, width, height, Some(desktop)) matches Some(f) && {
            let left_room = f.x;
            let right_room = rect_width(desktop) - (f.x + f.width);
            let top_room = f.y;
            let bottom_room = rect_height(desktop) - (f.y + f.height);
            &&& -1 <= left_room - right_room <= 1
            &&& -1 <= top_room - bottom_room <= 1
            &&& f.width == width
            &&& f.height == height
        },
{
}

/// A window with a fixed position goes there, whatever the desktop.
pub proof fn placed_window_ignores_desktop(
    position: (i32, i32),
    width: i32,
    height: i32,
    desktop: Option<Rect>,
)
    ensures
        initial_frame_of(Some(position), width, height, desktop) == initial_frame_of(
            Some(position),
            width,
            height,
            None,
        ),
        initial_frame_of(Some(position), width, height, desktop) matches Some(f) && f.x
            == position.0 && f.y == position.1,
{
}

/// A rectangle measures the same height whether it is given top-down or
/// bottom-up.
pub proof fn pixel_height_ignores_orientation(rect: Rect)
    ensures
        abs_int(rect_height(Rect { top: rect.bottom, bottom: rect.top, ..rect })) == abs_int(
            rect_height(rect),
        ),
{
}

/// Every frame a window starts in has the size its description gives,
/// placed or centred.
pub proof fn initial_frame_keeps_size(
    position: Option<(i32, i32)>,
    width: i32,
    height: i32,
    desktop: Option<Rect>,
)
    ensures
        initial_frame_of(position, width, height, desktop) matches Some(f) ==> f.width == width
            && f.height == height,
        position is Some ==> initial_frame_of(position, width, height, desktop) is Some,
{
}

/// A rectangle's pixel size is its extent on each axis: right minus left
/// when that is not negative, and the distance between top and bottom
/// whichever is larger.
pub proof fn pixel_size_is_extent(rect: Rect)
    ensures
        rect.right >= rect.left ==> u32_bits_of_i32(rect_width(rect)) == rect.right - rect.left,
        rect.bottom >= rect.top ==> abs_int(rect_height(rect)) == rect.bottom - rect.top,
        rect.bottom < rect.top ==> abs_int(rect_height(rect)) == rect.top - rect.bottom,
{
}

/// The launch is announced with the first window's whole title when it
/// has one, and with "rosin app" otherwise.
pub proof fn launch_title_is_first_title<S>(windows: Seq<WindowDesc<S>>)
    requires
        windows.len() >= 1,
    ensures
        windows[0].title matches Some(t) ==> launch_title_of(windows) == t@,
        windows[0].title is None ==> launch_title_of(windows) == "rosin app"@,
{
}

} // verus!
