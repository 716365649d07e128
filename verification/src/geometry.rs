use vstd::prelude::*;

verus! {

/// A rectangle in screen or client coordinates, as Win32 reports it
/// (`RECT`): edges, with `right` and `bottom` exclusive.
#[derive(Clone, Copy, Debug, PartialEq, Eq)]
pub struct Rect {
    pub left: i32,
    pub top: i32,
    pub right: i32,
    pub bottom: i32,
}

/// A size in whole device pixels (`D2D_SIZE_U`).
#[derive(Clone, Copy, Debug, PartialEq, Eq)]
pub struct PixelSize {
    pub width: u32,
    pub height: u32,
}

/// Where a window goes and how large it is, in whole pixels.
#[derive(Clone, Copy, Debug, PartialEq, Eq)]
pub struct WindowFrame {
    pub x: i32,
    pub y: i32,
    pub width: i32,
    pub height: i32,
}

/// Horizontal extent of a rectangle, signed.
pub open spec fn rect_width(r: Rect) -> int {
    r.right - r.left
}

/// Vertical extent of a rectangle, signed.
pub open spec fn rect_height(r: Rect) -> int {
    r.bottom - r.top
}

/// The `u32` whose bit pattern is the 32-bit two's complement of `v`
/// (what `as u32` makes of an `i32`).
pub open spec fn u32_bits_of_i32(v: int) -> int {
    if v >= 0 {
        v
    } else {
        v + 0x1_0000_0000
    }
}

pub open spec fn abs_int(v: int) -> int {
    if v >= 0 {
        v
    } else {
        -v
    }
}

/// `v / 2` rounded toward zero, as Rust's integer division rounds.
pub open spec fn half_toward_zero(v: int) -> int {
    if v >= 0 {
        v / 2
    } else {
        -((-v) / 2)
    }
}

/// The differences that `size_of_rect` takes stay inside `i32`, and the
/// vertical one is not `i32::MIN`, whose absolute value `i32` cannot hold.
pub open spec fn rect_size_computable(r: Rect) -> bool {
    &&& i32::MIN <= rect_width(r) <= i32::MAX
    &&& i32::MIN < rect_height(r) <= i32::MAX
}

/// The pixel size of a rectangle: its width reinterpreted as unsigned and
/// the absolute value of its height, so that a rectangle given bottom-up
/// measures as one given top-down.
pub fn size_of_rect(rect: Rect) -> (size: PixelSize)
    requires
        rect_size_computable(rect),
    ensures
        size.width == u32_bits_of_i32(rect_width(rect)),
        size.height == abs_int(rect_height(rect)),
        rect.right >= rect.left ==> size.width == rect.right - rect.left,
        rect.right < rect.left ==> size.width == 0x1_0000_0000 + rect.right - rect.left,
        rect.bottom >= rect.top ==> size.height == rect.bottom - rect.top,
        rect.bottom < rect.top ==> size.height == rect.top - rect.bottom,
{
    let w: i32 = rect.right - rect.left;
    let h: i32 = rect.top - rect.bottom;
    let abs_h: i32 = if h < 0 { -h } else { h };
    let width: u32 = w as u32;
    assert(w < 0 ==> w as u32 == w + 0x1_0000_0000) by (bit_vector);
    assert(w >= 0 ==> w as u32 == w) by (bit_vector);
    PixelSize { width, height: abs_h as u32 }
}

/// The differences `centered_origin` takes stay inside `i32`.
pub open spec fn centering_computable(desktop: Rect, width: i32, height: i32) -> bool {
    &&& i32::MIN <= rect_width(desktop) <= i32::MAX
    &&& i32::MIN <= rect_height(desktop) <= i32::MAX
    &&& i32::MIN <= rect_width(desktop) - width <= i32::MAX
    &&& i32::MIN <= rect_height(desktop) - height <= i32::MAX
}

/// The top-left corner that centres a `width` by `height` window on a
/// desktop of the size of `desktop`: half the room left over on each axis,
/// rounded toward zero. The result is relative to the desktop's size only,
/// not to its own origin.
pub fn centered_origin(desktop: Rect, width: i32, height: i32) -> (origin: (i32, i32))
    requires
        centering_computable(desktop, width, height),
    ensures
        origin.0 == half_toward_zero(rect_width(desktop) - width),
        origin.1 == half_toward_zero(rect_height(desktop) - height),
{
    let desktop_width: i32 = desktop.right - desktop.left;
    let desktop_height: i32 = desktop.bottom - desktop.top;
    let x: i32 = halve_toward_zero(desktop_width - width);
    let y: i32 = halve_toward_zero(desktop_height - height);
    (x, y)
}

fn halve_toward_zero(v: i32) -> (h: i32)
    ensures
        h == half_toward_zero(v as int),
{
    v / 2
}

} // verus!
