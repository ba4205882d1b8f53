//! The X11 requests that a window sends, as plain values.

use vstd::prelude::*;
use x11rb::protocol::xproto::{
    ChangeWindowAttributesAux, ConfigureWindowAux, CreateGCAux, CreateWindowAux,
};

use crate::geometry::{to_i16, PhyPoint, PhySize};
use crate::values::{new_cursor_values, new_size_values};

verus! {

/// The resource id that stands for no resource.
pub const NONE: u32 = 0;

/// The predefined atom `ATOM`, the type of a property that holds atoms.
pub const ATOM: u32 = 4;

/// The predefined atom `STRING`, the type of a property that holds text.
pub const STRING: u32 = 31;

/// The predefined atom `WM_NAME`, the property that holds a window's title.
pub const WM_NAME: u32 = 39;

/// The property mode that discards what the property held before.
pub const REPLACE: u8 = 0;

/// The class of a window that both takes input and shows output.
pub const INPUT_OUTPUT: u16 = 1;

/// The event mask bit for keys going down.
pub const KEY_PRESS: u32 = 0x1;

/// The event mask bit for keys going up.
pub const KEY_RELEASE: u32 = 0x2;

/// The event mask bit for pointer buttons going down.
pub const BUTTON_PRESS: u32 = 0x4;

/// The event mask bit for pointer buttons going up.
pub const BUTTON_RELEASE: u32 = 0x8;

/// The event mask bit for the pointer entering the window.
pub const ENTER_WINDOW: u32 = 0x10;

/// The event mask bit for the pointer leaving the window.
pub const LEAVE_WINDOW: u32 = 0x20;

/// The event mask bit for pointer movement.
pub const POINTER_MOTION: u32 = 0x40;

/// The event mask bit for parts of the window that need drawing.
pub const EXPOSURE: u32 = 0x8000;

/// The event mask bit for changes of the window's size, place or mapping.
pub const STRUCTURE_NOTIFY: u32 = 0x2_0000;

/// One message to the X server. Every variant but the last is the protocol
/// request of that name, with the request's own fields.
#[derive(Debug, PartialEq)]
#[allow(inconsistent_fields)]
pub enum Request {
    CreateGc { gc: u32, drawable: u32, values: CreateGCAux },
    CreateWindow {
        depth: u8,
        window: u32,
        parent: u32,
        x: i16,
        y: i16,
        width: u16,
        height: u16,
        border_width: u16,
        class: u16,
        visual: u32,
        values: CreateWindowAux,
    },
    MapWindow { window: u32 },
    /// `ChangeProperty` with a list of 8-bit items.
    ChangeProperty8 { mode: u8, window: u32, property: u32, item_type: u32, data: Vec<u8> },
    /// `ChangeProperty` with a single 32-bit item.
    ChangeProperty32 { mode: u8, window: u32, property: u32, item_type: u32, item: u32 },
    ChangeWindowAttributes { window: u32, values: ChangeWindowAttributesAux },
    ConfigureWindow { window: u32, values: ConfigureWindowAux },
    CreatePixmap { depth: u8, pixmap: u32, drawable: u32, width: u16, height: u16 },
    CreateCursor {
        cursor: u32,
        source: u32,
        mask: u32,
        fore_red: u16,
        fore_green: u16,
        fore_blue: u16,
        back_red: u16,
        back_green: u16,
        back_blue: u16,
        x: u16,
        y: u16,
    },
    FreePixmap { pixmap: u32 },
    WarpPointer {
        src_window: u32,
        dst_window: u32,
        src_x: i16,
        src_y: i16,
        src_width: u16,
        src_height: u16,
        dst_x: i16,
        dst_y: i16,
    },
    /// Everything written so far leaves the output buffer.
    Flush,
}

/// The request that gives `window` the cursor `cursor`.
pub open spec fn cursor_request(window: u32, cursor: u32) -> Request {
    Request::ChangeWindowAttributes { window, values: crate::values::cursor_values(cursor) }
}

/// The request that moves the pointer, wherever it is, to `(x, y)` in `window`.
pub open spec fn warp_request(window: u32, x: i16, y: i16) -> Request {
    Request::WarpPointer {
        src_window: NONE,
        dst_window: window,
        src_x: 0,
        src_y: 0,
        src_width: 0,
        src_height: 0,
        dst_x: x,
        dst_y: y,
    }
}

/// The request that moves the pointer to `point` in `window`; each coordinate
/// is cut to the 16 bits that the protocol has for it.
pub open spec fn warp_to(window: u32, point: PhyPoint) -> Request {
    warp_request(
        window,
        crate::geometry::wrap_i16(point.x as int) as i16,
        crate::geometry::wrap_i16(point.y as int) as i16,
    )
}

/// The request that gives `window` the size `size`.
pub open spec fn size_request(window: u32, size: PhySize) -> Request {
    Request::ConfigureWindow { window, values: crate::values::size_values(size.width, size.height) }
}

/// Makes the request that gives `window` the cursor `cursor`.
pub(crate) fn set_cursor(window: u32, cursor: u32) -> (r: Request)
    ensures
        r == cursor_request(window, cursor),
{
    Request::ChangeWindowAttributes { window, values: new_cursor_values(cursor) }
}

/// Makes the request that moves the pointer to `point` in `window`.
pub(crate) fn warp_pointer(window: u32, point: PhyPoint) -> (r: Request)
    ensures
        r == warp_to(window, point),
{
    Request::WarpPointer {
        src_window: NONE,
        dst_window: window,
        src_x: 0,
        src_y: 0,
        src_width: 0,
        src_height: 0,
        dst_x: to_i16(point.x),
        dst_y: to_i16(point.y),
    }
}

/// Makes the request that gives `window` the size `size`.
pub(crate) fn set_size(window: u32, size: PhySize) -> (r: Request)
    ensures
        r == size_request(window, size),
{
    Request::ConfigureWindow { window, values: new_size_values(size.width, size.height) }
}

} // verus!
