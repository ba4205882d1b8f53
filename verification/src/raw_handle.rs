//! The window handles that other libraries exchange.

use raw_window_handle::{RawWindowHandle, XlibWindowHandle};
use vstd::prelude::*;

use crate::geometry::to_u32;

verus! {

/// A window of any windowing system, as `raw_window_handle` passes it on.
#[verifier::external_type_specification]
#[verifier::external_body]
pub struct ExRawWindowHandle(RawWindowHandle);

/// What a raw handle says of a window that is to become a parent.
#[derive(Clone, Copy, Debug, PartialEq, Eq, Structural)]
pub enum ParentWindow {
    /// A window of Xlib, which keeps window ids in machine words.
    Xlib(u64),
    /// A window of XCB.
    Xcb(u32),
    /// A window of some other windowing system.
    Unsupported,
}

/// The handle of windowing system Xlib with this window and this visual.
pub uninterp spec fn xlib_window_handle(window: u32, visual_id: u32) -> RawWindowHandle;

/// The windowing system that `handle` is of, and the window id in it.
pub uninterp spec fn handle_window(handle: RawWindowHandle) -> ParentWindow;

/// Calls `XlibWindowHandle::empty`, sets its two fields and wraps it in
/// `RawWindowHandle::Xlib`. Trusted: the handle depends on the two arguments
/// alone, it is one of Xlib, and it names `window`. An empty handle has zero in
/// both fields, so this makes one of it when both arguments are zero.
#[verifier::external_body]
pub(crate) fn new_xlib_handle(window: u32, visual_id: u32) -> (r: RawWindowHandle)
    ensures
        r == xlib_window_handle(window, visual_id),
        handle_window(r) == ParentWindow::Xlib(window as u64),
{
    let mut handle = XlibWindowHandle::empty();
    handle.window = window.into();
    handle.visual_id = visual_id.into();
    RawWindowHandle::Xlib(handle)
}

/// Tells the variants of `RawWindowHandle` apart. Trusted: the result depends
/// on the handle alone.
#[verifier::external_body]
fn window_of_handle(handle: RawWindowHandle) -> (r: ParentWindow)
    ensures
        r == handle_window(handle),
{
    match handle {
        RawWindowHandle::Xlib(h) => ParentWindow::Xlib(h.window.into()),
        RawWindowHandle::Xcb(h) => ParentWindow::Xcb(h.window),
        _ => ParentWindow::Unsupported,
    }
}

impl ParentWindow {
    /// The X11 id of the window, if it has one.
    pub open spec fn spec_window_id(self) -> Option<u32> {
        match self {
            ParentWindow::Xlib(window) => Some(crate::geometry::wrap_u32(window as int) as u32),
            ParentWindow::Xcb(window) => Some(window),
            ParentWindow::Unsupported => None,
        }
    }

    /// The X11 id of the window: the low 32 bits of an Xlib id, an XCB id as it
    /// is, `None` for a window of another windowing system.
    pub fn window_id(&self) -> (r: Option<u32>)
        ensures
            r == self.spec_window_id(),
    {
        match *self {
            ParentWindow::Xlib(window) => Some(to_u32(window)),
            ParentWindow::Xcb(window) => Some(window),
            ParentWindow::Unsupported => None,
        }
    }
}

/// The X11 id of the window that `parent` names, or `None` if it is a window of
/// a windowing system other than X11.
pub fn parent_window_id(parent: RawWindowHandle) -> (r: Option<u32>)
    ensures
        r == handle_window(parent).spec_window_id(),
{
    window_of_handle(parent).window_id()
}

} // verus!
