use vstd::prelude::*;
use std::sync::Arc;
use raw_window_handle::Win32WindowHandle;
use crate::raw_handle::{win32_handle_for, win32_window_handle_of, RawHandleError};
use crate::view::{RosinView, ShowCommand, ShowWindowCall, ThreadLockedView};

verus! {

/// `WS_SIZEBOX`: the window style bit of a resizable frame.
pub const WS_SIZEBOX: u32 = 0x0004_0000;

/// `SWP_NOSIZE`: `SetWindowPos` keeps the size.
pub const SWP_NOSIZE: u32 = 0x0001;

/// `SWP_NOMOVE`: `SetWindowPos` keeps the position.
pub const SWP_NOMOVE: u32 = 0x0002;

/// `SWP_NOZORDER`: `SetWindowPos` keeps the Z order.
pub const SWP_NOZORDER: u32 = 0x0004;

/// `SWP_ASYNCWINDOWPOS`: `SetWindowPos` posts the request to the window's
/// thread instead of waiting, so any thread may make it.
pub const SWP_ASYNCWINDOWPOS: u32 = 0x4000;

/// The sizebox bit as it stands in a window's style value.
pub open spec fn sizebox_bit() -> isize {
    0x0004_0000isize
}

/// `style` with its sizebox bit set when `resizable`, cleared otherwise.
pub open spec fn style_with_sizebox(style: isize, resizable: bool) -> isize {
    if resizable {
        style | sizebox_bit()
    } else {
        style & !sizebox_bit()
    }
}

/// The window style a window gets when made resizable or not: `style` with
/// the sizebox bit set or cleared, every other bit as it was.
pub fn resizable_style(style: isize, resizable: bool) -> (new_style: isize)
    ensures
        new_style == style_with_sizebox(style, resizable),
        (new_style & sizebox_bit() == sizebox_bit()) <==> resizable,
        new_style & !sizebox_bit() == style & !sizebox_bit(),
{
    let bit: isize = WS_SIZEBOX as isize;
    assert(bit == sizebox_bit());
    if resizable {
        let r: isize = style | bit;
        assert(r & 0x0004_0000isize == 0x0004_0000isize && r & !0x0004_0000isize == style
            & !0x0004_0000isize) by (bit_vector)
            requires
                r == style | 0x0004_0000isize,
        ;
        r
    } else {
        let r: isize = style & !bit;
        assert(r & 0x0004_0000isize != 0x0004_0000isize && r & !0x0004_0000isize == style
            & !0x0004_0000isize) by (bit_vector)
            requires
                r == style & !0x0004_0000isize,
        ;
        r
    }
}

/// One `SetWindowPos` call, asynchronous and keeping the Z order.
#[derive(Clone, Copy, Debug, PartialEq, Eq)]
pub struct SetWindowPosCall {
    pub hwnd: isize,
    pub x: i32,
    pub y: i32,
    pub cx: i32,
    pub cy: i32,
    pub flags: u32,
}

/// One `SetWindowLongPtrW(hwnd, GWL_STYLE, style)` call.
#[derive(Clone, Copy, Debug, PartialEq, Eq)]
pub struct SetStyleCall {
    pub hwnd: isize,
    pub style: isize,
}

/// Whether a `SetWindowPos` call with `flags` changes the window's
/// position, its size.
pub open spec fn moves(flags: u32) -> bool {
    flags & SWP_NOMOVE == 0
}

pub open spec fn resizes(flags: u32) -> bool {
    flags & SWP_NOSIZE == 0
}

/// A shareable handle to a window, used from any thread; what touches the
/// native window itself happens on the thread that owns it.
#[derive(Clone)]
pub struct WindowHandle {
    view: Arc<ThreadLockedView>,
}

impl WindowHandle {
    pub closed spec fn locked(&self) -> ThreadLockedView {
        *self.view
    }

    /// The handle value of the window.
    pub open spec fn handle(&self) -> isize {
        self.locked().locked().handle()
    }

    /// The thread that owns the window.
    pub open spec fn owner(&self) -> u32 {
        self.locked().owner()
    }

    /// A handle to `view`, whose window `thread_id` owns.
    pub fn new(view: RosinView, thread_id: u32) -> (handle: WindowHandle)
        ensures
            handle.locked().locked() == view,
            handle.owner() == thread_id,
    {
        WindowHandle { view: Arc::new(ThreadLockedView::new(view, thread_id)) }
    }

    /// The thread that owns the window, the one the window may be reached
    /// from.
    pub fn owner_thread(&self) -> (id: u32)
        ensures
            id == self.owner(),
    {
        let locked: &ThreadLockedView = &self.view;
        locked.owner_thread()
    }

    /// The window's handle value.
    pub fn hwnd(&self) -> (hwnd: isize)
        ensures
            hwnd == self.handle(),
    {
        let locked: &ThreadLockedView = &self.view;
        locked.view_hwnd()
    }

    /// The call that minimizes the window. It may only be asked for on the
    /// thread that owns the window.
    pub fn minimize(&self, current_thread: u32) -> (call: ShowWindowCall)
        requires
            current_thread == self.owner(),
        ensures
            call == (ShowWindowCall { hwnd: self.handle(), command: ShowCommand::Minimize }),
    {
        let locked: &ThreadLockedView = &self.view;
        locked.try_on_thread(current_thread, RosinView::minimize).expect(
            "the window is asked for on its own thread",
        )
    }

    /// The call that maximizes the window. It may only be asked for on the
    /// thread that owns the window.
    pub fn maximize(&self, current_thread: u32) -> (call: ShowWindowCall)
        requires
            current_thread == self.owner(),
        ensures
            call == (ShowWindowCall { hwnd: self.handle(), command: ShowCommand::Maximize }),
    {
        let locked: &ThreadLockedView = &self.view;
        locked.try_on_thread(current_thread, RosinView::maximize).expect(
            "the window is asked for on its own thread",
        )
    }

    /// The call that restores the window. It may only be asked for on the
    /// thread that owns the window.
    pub fn restore(&self, current_thread: u32) -> (call: ShowWindowCall)
        requires
            current_thread == self.owner(),
        ensures
            call == (ShowWindowCall { hwnd: self.handle(), command: ShowCommand::Restore }),
    {
        let locked: &ThreadLockedView = &self.view;
        locked.try_on_thread(current_thread, RosinView::restore).expect(
            "the window is asked for on its own thread",
        )
    }

    /// The raw Win32 handle of the window: unavailable when the window's
    /// handle is null. It may only be asked for on the thread that owns the
    /// window.
    pub fn window_handle(&self, current_thread: u32) -> (handle: Result<
        Win32WindowHandle,
        RawHandleError,
    >)
        requires
            current_thread == self.owner(),
        ensures
            handle is Err <==> self.handle() == 0,
            handle matches Err(e) ==> e == RawHandleError::Unavailable,
            handle matches Ok(h) ==> h == win32_window_handle_of(self.handle()),
    {
        let locked: &ThreadLockedView = &self.view;
        locked.try_on_thread(current_thread, raw_handle_of_view).expect(
            "RawWindowHandle must be requested from the main thread",
        )
    }

    /// The `SetWindowPos` call that moves the window's top-left corner to
    /// `(x, y)` and keeps its size and Z order. It is posted to the owner
    /// thread, so any thread may make it.
    pub fn set_position(&self, x: i32, y: i32) -> (call: SetWindowPosCall)
        ensures
            call == (SetWindowPosCall {
                hwnd: self.handle(),
                x,
                y,
                cx: 0,
                cy: 0,
                flags: SWP_ASYNCWINDOWPOS | SWP_NOSIZE | SWP_NOZORDER,
            }),
    {
        SetWindowPosCall {
            hwnd: self.hwnd(),
            x,
            y,
            cx: 0,
            cy: 0,
            flags: SWP_ASYNCWINDOWPOS | SWP_NOSIZE | SWP_NOZORDER,
        }
    }

    /// The `SetWindowPos` call that gives the window the size `width` by
    /// `height` and keeps its position and Z order. It is posted to the
    /// owner thread, so any thread may make it.
    pub fn set_size(&self, width: i32, height: i32) -> (call: SetWindowPosCall)
        ensures
            call == (SetWindowPosCall {
                hwnd: self.handle(),
                x: 0,
                y: 0,
                cx: width,
                cy: height,
                flags: SWP_ASYNCWINDOWPOS | SWP_NOMOVE | SWP_NOZORDER,
            }),
    {
        SetWindowPosCall {
            hwnd: self.hwnd(),
            x: 0,
            y: 0,
            cx: width,
            cy: height,
            flags: SWP_ASYNCWINDOWPOS | SWP_NOMOVE | SWP_NOZORDER,
        }
    }

    /// The style update that makes the window resizable or not, given the
    /// style it has now.
    pub fn set_resizable(&self, current_style: isize, resizeable: bool) -> (call: SetStyleCall)
        ensures
            call == (SetStyleCall {
                hwnd: self.handle(),
                style: style_with_sizebox(current_style, resizeable),
            }),
    {
        SetStyleCall { hwnd: self.hwnd(), style: resizable_style(current_style, resizeable) }
    }

    /// Nothing is done yet to activate a window.
    pub fn activate(&self) {
    }

    /// Nothing is done yet to deactivate a window.
    pub fn deactivate(&self) {
    }

    /// Closing on request is not wired yet: nothing happens.
    pub fn request_close(&self) {
    }

    /// Exiting on request is not wired yet: nothing happens.
    pub fn request_exit(&self) {
    }

    /// The cursor is not hidden yet: nothing happens.
    pub fn hide_cursor(&self) {
    }

    /// The cursor is not hidden yet, so there is nothing to show again.
    pub fn unhide_cursor(&self) {
    }

    /// The clipboard is not written yet: the text is dropped.
    pub fn set_clipboard_text(&self, _text: &str) {
    }

    /// URLs are not opened yet: nothing happens.
    pub fn open_url(&self, _url: &str) {
    }

    /// The window counts as active.
    pub fn is_active(&self) -> (active: bool)
        ensures
            active,
    {
        true
    }

    /// The clipboard is not read: there is never text to give.
    pub fn get_clipboard_text(&self) -> (text: Option<String>)
        ensures
            text is None,
    {
        None
    }
}

/// The raw Win32 handle of the window `view` shows.
fn raw_handle_of_view(view: &RosinView) -> (handle: Result<Win32WindowHandle, RawHandleError>)
    ensures
        handle is Err <==> view.handle() == 0,
        handle matches Err(e) ==> e == RawHandleError::Unavailable,
        handle matches Ok(h) ==> h == win32_window_handle_of(view.handle()),
{
    win32_handle_for(view.hwnd())
}

/// The window a new window is created under: the parent's, if there is
/// one, else the desktop window.
pub fn creation_parent(parent: Option<&WindowHandle>, desktop_hwnd: isize) -> (hwnd: isize)
    ensures
        hwnd == (match parent {
            Some(p) => p.handle(),
            None => desktop_hwnd,
        }),
{
    match parent {
        Some(p) => p.hwnd(),
        None => desktop_hwnd,
    }
}

} // verus!
