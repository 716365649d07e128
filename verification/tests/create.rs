use rosin::create::{create_window_call, WS_EX_OVERLAPPEDWINDOW, WS_OVERLAPPEDWINDOW};
use rosin::geometry::{Rect, WindowFrame};
use rosin::handle::WindowHandle;
use rosin::launcher::WindowDesc;
use rosin::view::RosinView;

const DESKTOP: Rect = Rect { left: 0, top: 0, right: 1920, bottom: 1080 };

#[test]
fn create_call_centered_under_desktop() {
    let desc: WindowDesc<()> = WindowDesc::new(Some("Hi".to_string()), 800, 600);
    let call = create_window_call(&desc, None, 0x10, Some(DESKTOP)).unwrap();
    assert_eq!(call.ex_style, 0x300);
    assert_eq!(call.style, 0x00CF_0000);
    assert_eq!(call.ex_style, WS_EX_OVERLAPPEDWINDOW);
    assert_eq!(call.style, WS_OVERLAPPEDWINDOW);
    assert_eq!(call.title, Some(vec![0x48, 0x69]));
    assert_eq!(call.frame, WindowFrame { x: 560, y: 240, width: 800, height: 600 });
    assert_eq!(call.parent, 0x10);
}

#[test]
fn create_call_at_position_under_parent() {
    let desc: WindowDesc<()> = WindowDesc::new(None, 300, 200).with_position(5, 6);
    let parent = WindowHandle::new(RosinView::from_hwnd(0x77), 1);
    let call = create_window_call(&desc, Some(&parent), 0x10, None).unwrap();
    assert_eq!(call.title, None);
    assert_eq!(call.frame, WindowFrame { x: 5, y: 6, width: 300, height: 200 });
    assert_eq!(call.parent, 0x77);
}

#[test]
fn create_call_needs_desktop_without_position() {
    let desc: WindowDesc<()> = WindowDesc::new(None, 300, 200);
    assert!(create_window_call(&desc, None, 0x10, None).is_none());
}
