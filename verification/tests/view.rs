use rosin::handle::{creation_parent, resizable_style, SetStyleCall, SetWindowPosCall, WindowHandle};
use rosin::raw_handle::{win32_handle_for, RawHandleError};
use rosin::view::{RosinView, ShowCommand, ShowWindowCall, ThreadLockedView, ViewState};

#[test]
fn show_command_codes() {
    assert_eq!(ShowCommand::Normal.code(), 1);
    assert_eq!(ShowCommand::Minimize.code(), 6);
    assert_eq!(ShowCommand::Maximize.code(), 3);
    assert_eq!(ShowCommand::Restore.code(), 9);
}

#[test]
fn view_show_calls() {
    let view = RosinView::from_hwnd(0x55);
    assert_eq!(view.hwnd(), 0x55);
    assert_eq!(view.minimize(), ShowWindowCall { hwnd: 0x55, command: ShowCommand::Minimize });
    assert_eq!(view.maximize(), ShowWindowCall { hwnd: 0x55, command: ShowCommand::Maximize });
    assert_eq!(view.restore(), ShowWindowCall { hwnd: 0x55, command: ShowCommand::Restore });
    assert_eq!(view.show_initially(), ShowWindowCall { hwnd: 0x55, command: ShowCommand::Normal });
}

#[test]
fn locked_view_runs_only_on_owner_thread() {
    let locked = ThreadLockedView::new(RosinView::from_hwnd(9), 7);
    assert_eq!(locked.owner_thread(), 7);
    assert_eq!(locked.try_on_thread(7, |v: &RosinView| v.hwnd() + 1), Some(10));
    let mut ran = false;
    let result = locked.try_on_thread(8, |v: &RosinView| {
        ran = true;
        v.hwnd()
    });
    assert_eq!(result, None);
    assert!(!ran);
}

#[test]
fn handle_show_calls_on_owner_thread() {
    let handle = WindowHandle::new(RosinView::from_hwnd(0x1234), 3);
    assert_eq!(handle.hwnd(), 0x1234);
    assert_eq!(handle.owner_thread(), 3);
    assert_eq!(handle.minimize(3), ShowWindowCall { hwnd: 0x1234, command: ShowCommand::Minimize });
    assert_eq!(handle.maximize(3), ShowWindowCall { hwnd: 0x1234, command: ShowCommand::Maximize });
    assert_eq!(handle.restore(3), ShowWindowCall { hwnd: 0x1234, command: ShowCommand::Restore });
}

#[test]
fn cloned_handle_reaches_same_window() {
    let handle = WindowHandle::new(RosinView::from_hwnd(77), 1);
    let other = handle.clone();
    assert_eq!(other.hwnd(), 77);
    assert_eq!(other.minimize(1), handle.minimize(1));
}

#[test]
fn set_position_keeps_size() {
    let handle = WindowHandle::new(RosinView::from_hwnd(5), 1);
    assert_eq!(
        handle.set_position(10, -20),
        SetWindowPosCall { hwnd: 5, x: 10, y: -20, cx: 0, cy: 0, flags: 0x4005 }
    );
}

#[test]
fn set_size_keeps_position() {
    let handle = WindowHandle::new(RosinView::from_hwnd(5), 1);
    assert_eq!(
        handle.set_size(640, 480),
        SetWindowPosCall { hwnd: 5, x: 0, y: 0, cx: 640, cy: 480, flags: 0x4006 }
    );
}

#[test]
fn resizable_style_sets_and_clears_sizebox() {
    assert_eq!(resizable_style(0, true), 0x0004_0000);
    assert_eq!(resizable_style(0x0004_0010, false), 0x10);
    assert_eq!(resizable_style(0x00CF_0000, true), 0x00CF_0000);
    assert_eq!(resizable_style(0x00CF_0000, false), 0x00CB_0000);
    assert_eq!(resizable_style(-1, false), !0x0004_0000isize);
}

#[test]
fn resizable_last_request_wins() {
    for style in [0isize, 0x10, 0x0004_0000, 0x00CF_0000, -1] {
        for first in [false, true] {
            for second in [false, true] {
                assert_eq!(
                    resizable_style(resizable_style(style, first), second),
                    resizable_style(style, second)
                );
            }
        }
    }
}

#[test]
fn set_resizable_call() {
    let handle = WindowHandle::new(RosinView::from_hwnd(5), 1);
    assert_eq!(handle.set_resizable(0x00CB_0000, true), SetStyleCall { hwnd: 5, style: 0x00CF_0000 });
}

#[test]
fn raw_handle_of_null_window_unavailable() {
    assert_eq!(win32_handle_for(0), Err(RawHandleError::Unavailable));
}

#[test]
fn raw_handle_keeps_hwnd() {
    let handle = win32_handle_for(0x42).unwrap();
    assert_eq!(handle.hwnd.get(), 0x42);
    assert_eq!(handle.hinstance, None);
}

#[test]
fn window_handle_on_owner_thread() {
    let handle = WindowHandle::new(RosinView::from_hwnd(0x99), 2);
    let raw = handle.window_handle(2).unwrap();
    assert_eq!(raw.hwnd.get(), 0x99);
    let null = WindowHandle::new(RosinView::from_hwnd(0), 2);
    assert_eq!(null.window_handle(2), Err(RawHandleError::Unavailable));
}

#[test]
fn creation_parent_prefers_parent() {
    let parent = WindowHandle::new(RosinView::from_hwnd(11), 1);
    assert_eq!(creation_parent(Some(&parent), 99), 11);
    assert_eq!(creation_parent(None, 99), 99);
}

#[test]
fn stub_queries() {
    let handle = WindowHandle::new(RosinView::from_hwnd(1), 1);
    assert!(handle.is_active());
    assert_eq!(handle.get_clipboard_text(), None);
}

#[test]
fn view_state_lifecycle() {
    let mut state: ViewState<&str, u8> = ViewState::new("factory");
    assert!(state.needs_render_target());
    state.install_render_target(5);
    assert!(!state.needs_render_target());
    assert_eq!(state.render_target, Some(5));
    state.release_graphics();
    assert!(state.needs_render_target());
    state.install_render_target(6);
    state.release();
    assert_eq!(state.render_target, None);
    assert_eq!(state.factory, "factory");
}
