use raw_window_handle::{
    RawWindowHandle, WaylandWindowHandle, XcbWindowHandle, XlibWindowHandle,
};
use x11_window::handle::choose_handle;
use x11_window::raw_handle::{parent_window_id, ParentWindow};
use x11_window::{ParentHandle, WindowHandle};

fn xlib(window: u32, visual_id: u32) -> RawWindowHandle {
    let mut handle = XlibWindowHandle::empty();
    handle.window = window.into();
    handle.visual_id = visual_id.into();
    RawWindowHandle::Xlib(handle)
}

fn empty() -> RawWindowHandle {
    RawWindowHandle::Xlib(XlibWindowHandle::empty())
}

#[test]
fn a_new_pair_is_open() {
    let (parent, handle): (ParentHandle, WindowHandle<u8>) = ParentHandle::new();
    assert!(!parent.parent_did_drop());
    assert!(handle.is_open());
    assert_eq!(handle.raw_window_handle(), empty());
}

#[test]
fn closing_reaches_the_window() {
    let (parent, mut handle): (ParentHandle, WindowHandle<&str>) = ParentHandle::new();
    handle.attach(xlib(4, 5), "thread");
    assert_eq!(handle.close(), Some("thread"));
    assert!(parent.parent_did_drop());
    assert!(handle.is_open());
    assert_eq!(handle.close(), None);
    assert_eq!(handle.raw_window_handle(), xlib(4, 5));
}

#[test]
fn closing_before_the_window_is_there() {
    let (parent, mut handle): (ParentHandle, WindowHandle<u8>) = ParentHandle::new();
    assert_eq!(handle.close(), None);
    assert!(parent.parent_did_drop());
}

#[test]
fn a_dropped_window_is_closed() {
    let (parent, mut handle): (ParentHandle, WindowHandle<u8>) = ParentHandle::new();
    handle.attach(xlib(4, 5), 1);
    assert_eq!(handle.raw_window_handle(), xlib(4, 5));
    drop(parent);
    assert!(!handle.is_open());
    assert_eq!(handle.raw_window_handle(), empty());
}

#[test]
fn pairs_are_apart() {
    let (first, mut first_handle): (ParentHandle, WindowHandle<u8>) = ParentHandle::new();
    let (second, second_handle): (ParentHandle, WindowHandle<u8>) = ParentHandle::new();
    first_handle.close();
    drop(first);
    assert!(!second.parent_did_drop());
    assert!(second_handle.is_open());
    assert!(!first_handle.is_open());
}

#[test]
fn the_handle_given_out() {
    assert_eq!(choose_handle(Some(xlib(4, 5)), true), xlib(4, 5));
    assert_eq!(choose_handle(Some(xlib(4, 5)), false), empty());
    assert_eq!(choose_handle(None, true), empty());
    assert_eq!(choose_handle(None, false), empty());
}

#[test]
fn parents_of_x11() {
    assert_eq!(parent_window_id(xlib(77, 1)), Some(77));
    let mut handle = XcbWindowHandle::empty();
    handle.window = 0xffff_fffe;
    assert_eq!(parent_window_id(RawWindowHandle::Xcb(handle)), Some(0xffff_fffe));
    assert_eq!(ParentWindow::Xlib(0x1_0000_0007).window_id(), Some(7));
    assert_eq!(ParentWindow::Xcb(9).window_id(), Some(9));
}

#[test]
fn other_parents_are_refused() {
    let handle = RawWindowHandle::Wayland(WaylandWindowHandle::empty());
    assert_eq!(parent_window_id(handle), None);
    assert_eq!(ParentWindow::Unsupported.window_id(), None);
}
