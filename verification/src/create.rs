use vstd::prelude::*;
use crate::geometry::{centering_computable, Rect, WindowFrame};
use crate::handle::{creation_parent, WindowHandle};
use crate::launcher::{initial_frame_of, WindowDesc};
use crate::title::{utf16_of, wide_title};

verus! {

/// `WS_OVERLAPPEDWINDOW`: a top-level window with a title bar, a sizing
/// frame, a window menu and minimize and maximize buttons.
pub const WS_OVERLAPPEDWINDOW: u32 = 0x00CF_0000;

/// `WS_EX_OVERLAPPEDWINDOW`: a raised edge around a sunken client edge.
pub const WS_EX_OVERLAPPEDWINDOW: u32 = 0x0000_0300;

/// One `CreateWindowExW` call for a window of the rosin class, with no
/// menu: its extended style and style, its title as UTF-16 units, its
/// frame and the window it is created under.
pub struct CreateWindowCall {
    pub ex_style: u32,
    pub style: u32,
    pub title: Option<Vec<u16>>,
    pub frame: WindowFrame,
    pub parent: isize,
}

/// The UTF-16 units a call carries as title, if any.
pub open spec fn title_units(title: Option<Vec<u16>>) -> Option<Seq<u16>> {
    match title {
        Some(t) => Some(t@),
        None => None,
    }
}

/// The UTF-16 units of a description's title, if it has one.
pub open spec fn desc_title_units(title: Option<String>) -> Option<Seq<u16>> {
    match title {
        Some(t) => Some(utf16_of(t@)),
        None => None,
    }
}

/// The `CreateWindowExW` call that opens the window `desc` describes: an
/// overlapped window with the description's title and frame (centred on
/// `desktop` when the description has no position), created under
/// `parent`'s window, or under the desktop window `desktop_hwnd` when there
/// is no parent. `None` when the frame needs the desktop rectangle and none
/// is given.
pub fn create_window_call<S>(
    desc: &WindowDesc<S>,
    parent: Option<&WindowHandle>,
    desktop_hwnd: isize,
    desktop: Option<Rect>,
) -> (call: Option<CreateWindowCall>)
    requires
        desc.position is None ==> (desktop matches Some(d) ==> centering_computable(
            d,
            desc.width,
            desc.height,
        )),
    ensures
        call is Some <==> initial_frame_of(desc.position, desc.width, desc.height, desktop) is Some,
        call matches Some(c) ==> {
            &&& c.ex_style == WS_EX_OVERLAPPEDWINDOW
            &&& c.style == WS_OVERLAPPEDWINDOW
            &&& title_units(c.title) == desc_title_units(desc.title)
            &&& Some(c.frame) == initial_frame_of(desc.position, desc.width, desc.height, desktop)
            &&& c.parent == (match parent {
                Some(p) => p.handle(),
                None => desktop_hwnd,
            })
        },
{
    match desc.initial_frame(desktop) {
        Some(frame) => {
            let title: Option<Vec<u16>> = match &desc.title {
                Some(t) => Some(wide_title(t.as_str())),
                None => None,
            };
            Some(
                CreateWindowCall {
                    ex_style: WS_EX_OVERLAPPEDWINDOW,
                    style: WS_OVERLAPPEDWINDOW,
                    title,
                    frame,
                    parent: creation_parent(parent, desktop_hwnd),
                },
            )
        },
        None => None,
    }
}

} // verus!
