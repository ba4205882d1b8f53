//! The value lists of `x11rb` that requests carry, and the constructors that
//! fill them in. Everything here is taken on trust from that crate.

use vstd::prelude::*;
use x11rb::protocol::xproto::{
    ChangeWindowAttributesAux, ConfigureWindowAux, CreateGCAux, CreateWindowAux, EventMask,
};

verus! {

/// The value list of a `CreateGC` request.
#[verifier::external_type_specification]
#[verifier::external_body]
pub struct ExCreateGCAux(CreateGCAux);

/// The value list of a `CreateWindow` request.
#[verifier::external_type_specification]
#[verifier::external_body]
pub struct ExCreateWindowAux(CreateWindowAux);

/// The value list of a `ChangeWindowAttributes` request.
#[verifier::external_type_specification]
#[verifier::external_body]
pub struct ExChangeWindowAttributesAux(ChangeWindowAttributesAux);

/// The value list of a `ConfigureWindow` request.
#[verifier::external_type_specification]
#[verifier::external_body]
pub struct ExConfigureWindowAux(ConfigureWindowAux);

/// The value list that sets the foreground pixel and the graphics-exposures
/// switch of a graphics context, and nothing else.
pub uninterp spec fn gc_values(foreground: u32, graphics_exposures: u32) -> CreateGCAux;

/// The value list that sets the event mask, the colour map and the border
/// pixel of a new window, and nothing else.
pub uninterp spec fn window_values(
    event_mask: u32,
    colormap: u32,
    border_pixel: u32,
) -> CreateWindowAux;

/// The value list that sets the cursor of a window, and nothing else.
pub uninterp spec fn cursor_values(cursor: u32) -> ChangeWindowAttributesAux;

/// The value list that sets the width and the height of a window, and nothing
/// else.
pub uninterp spec fn size_values(width: u32, height: u32) -> ConfigureWindowAux;

/// Calls `CreateGCAux::new`, then `foreground` and `graphics_exposures` on it.
/// Trusted: the value list depends on the two arguments alone.
#[verifier::external_body]
pub(crate) fn new_gc_values(foreground: u32, graphics_exposures: u32) -> (r: CreateGCAux)
    ensures
        r == gc_values(foreground, graphics_exposures),
{
    CreateGCAux::new().foreground(foreground).graphics_exposures(graphics_exposures)
}

/// Calls `CreateWindowAux::new`, then `event_mask`, `colormap` and
/// `border_pixel` on it; the event mask is made from its bits by
/// `EventMask::from`. Trusted: the value list depends on the three arguments
/// alone.
#[verifier::external_body]
pub(crate) fn new_window_values(event_mask: u32, colormap: u32, border_pixel: u32) -> (r:
    CreateWindowAux)
    ensures
        r == window_values(event_mask, colormap, border_pixel),
{
    CreateWindowAux::new()
        .event_mask(EventMask::from(event_mask))
        .colormap(colormap)
        .border_pixel(border_pixel)
}

/// Calls `ChangeWindowAttributesAux::new`, then `cursor` on it. Trusted: the
/// value list depends on the argument alone.
#[verifier::external_body]
pub(crate) fn new_cursor_values(cursor: u32) -> (r: ChangeWindowAttributesAux)
    ensures
        r == cursor_values(cursor),
{
    ChangeWindowAttributesAux::new().cursor(cursor)
}

/// Calls `ConfigureWindowAux::new`, then `width` and `height` on it. Trusted:
/// the value list depends on the two arguments alone.
#[verifier::external_body]
pub(crate) fn new_size_values(width: u32, height: u32) -> (r: ConfigureWindowAux)
    ensures
        r == size_values(width, height),
{
    ConfigureWindowAux::new().width(width).height(height)
}

} // verus!
