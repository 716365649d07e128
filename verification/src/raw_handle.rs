use vstd::prelude::*;
use raw_window_handle::Win32WindowHandle;
use core::num::NonZeroIsize;

verus! {

/// The raw window handle type of `raw-window-handle` for Win32 windows;
/// its fields stay hidden from proofs.
#[verifier::external_type_specification]
#[verifier::external_body]
pub struct ExWin32WindowHandle(Win32WindowHandle);

/// Why no raw handle can be given for a window.
#[derive(Clone, Copy, Debug, PartialEq, Eq)]
pub enum RawHandleError {
    /// The window has no handle (its `HWND` is null).
    Unavailable,
}

/// The handle `Win32WindowHandle::new` makes for the nonzero `HWND` value
/// `hwnd`: in the crate's source, the one with that `hwnd` and no
/// `hinstance`.
pub uninterp spec fn win32_window_handle_of(hwnd: isize) -> Win32WindowHandle;

/// `Win32WindowHandle::new` of `raw-window-handle`, on a nonzero `HWND`
/// value. Its result is claimed to be `win32_window_handle_of(hwnd)`, a
/// function of `hwnd` alone; its fields are hidden from proofs.
#[verifier::external_body]
fn new_win32_window_handle(hwnd: isize) -> (handle: Win32WindowHandle)
    requires
        hwnd != 0,
    ensures
        handle == win32_window_handle_of(hwnd),
{
    Win32WindowHandle::new(NonZeroIsize::new(hwnd).unwrap())
}

/// The raw Win32 handle for a window whose `HWND` has the value `hwnd`:
/// refused as unavailable exactly when the handle is null.
pub fn win32_handle_for(hwnd: isize) -> (handle: Result<Win32WindowHandle, RawHandleError>)
    ensures
        handle is Err <==> hwnd == 0,
        handle matches Err(e) ==> e == RawHandleError::Unavailable,
        handle matches Ok(h) ==> h == win32_window_handle_of(hwnd),
{
    if hwnd == 0 {
        Err(RawHandleError::Unavailable)
    } else {
        Ok(new_win32_window_handle(hwnd))
    }
}

} // verus!
