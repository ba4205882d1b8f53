//! The two ends of a window that lives on a thread of its own: the handle that
//! its owner keeps, and the one that goes with the window.
//!
//! Two flags run between the ends. One asks the window to close: it is down at
//! first, the owner puts it up, and the window reads it. The other says that the
//! window is open: it is up at first, the window's end puts it down when it is
//! dropped, and the owner reads it. The contracts say all that each end stores
//! in its flag, and what follows from what it reads in the other. When a store
//! is seen depends on the other thread.

use raw_window_handle::RawWindowHandle;
use std::sync::atomic::AtomicBool;
use vstd::prelude::*;

use crate::flag::{new_flag, Flag, FlagWriter};
use crate::raw_handle::new_xlib_handle;

verus! {

/// The owner's end of a window. `J` is what the owner waits on for the window's
/// thread to end.
pub struct WindowHandle<J> {
    raw_window_handle: Option<RawWindowHandle>,
    event_loop_handle: Option<J>,
    close_requested: FlagWriter,
    is_open: Flag,
}

/// The window's end. Dropping it tells the owner that the window is gone.
pub struct ParentHandle {
    close_requested: Flag,
    is_open: FlagWriter,
}

/// The handle that stands for no window.
pub open spec fn no_window() -> RawWindowHandle {
    crate::raw_handle::xlib_window_handle(0, 0)
}

/// The handle to give out for a window whose own handle is `raw`, if it has one
/// yet, when the window is open or not.
pub open spec fn visible_handle(raw: Option<RawWindowHandle>, open: bool) -> RawWindowHandle {
    if open && raw is Some {
        raw->0
    } else {
        no_window()
    }
}

/// The handle to give out for a window: its own while it is open, and the empty
/// one before it has a handle and after it has closed.
pub fn choose_handle(raw: Option<RawWindowHandle>, open: bool) -> (r: RawWindowHandle)
    ensures
        r == visible_handle(raw, open),
{
    if let Some(raw) = raw {
        if open {
            return raw;
        }
    }
    new_xlib_handle(0, 0)
}

impl<J> WindowHandle<J> {
    /// The window's handle, once it has been attached.
    pub closed spec fn raw(self) -> Option<RawWindowHandle> {
        self.raw_window_handle
    }

    /// What to wait on for the window's thread to end, if anything.
    pub closed spec fn event_loop(self) -> Option<J> {
        self.event_loop_handle
    }

    /// The flag that asks the window to close.
    pub closed spec fn close_flag(self) -> AtomicBool {
        self.close_requested.identity()
    }

    /// The flag that says that the window is open.
    pub closed spec fn open_flag(self) -> AtomicBool {
        self.is_open.identity()
    }

    /// All that this end has stored in the flag that asks the window to close.
    pub closed spec fn close_stores(self) -> Seq<bool> {
        self.close_requested.stores()
    }

    /// Records the window's handle and its thread, once the window is there.
    pub fn attach(&mut self, raw_window_handle: RawWindowHandle, event_loop_handle: J)
        ensures
            final(self).raw() == Some(raw_window_handle),
            final(self).event_loop() == Some(event_loop_handle),
            final(self).close_flag() == old(self).close_flag(),
            final(self).open_flag() == old(self).open_flag(),
            final(self).close_stores() == old(self).close_stores(),
    {
        self.raw_window_handle = Some(raw_window_handle);
        self.event_loop_handle = Some(event_loop_handle);
    }

    /// Asks the window to close, and hands out what to wait on for its thread
    /// to end. It is handed out once: a second call has nothing to wait on. The
    /// request is not taken back.
    pub fn close(&mut self) -> (r: Option<J>)
        ensures
            final(self).close_stores() == old(self).close_stores().push(true),
            crate::flag::ever_stored(final(self).close_flag(), true),
            r == old(self).event_loop(),
            final(self).event_loop() is None,
            final(self).raw() == old(self).raw(),
            final(self).close_flag() == old(self).close_flag(),
            final(self).open_flag() == old(self).open_flag(),
    {
        self.close_requested.store(true);
        self.event_loop_handle.take()
    }

    /// Whether the window is open, as far as its end has told: what the flag for
    /// that held at first, or what is stored in it. When the other thread's store
    /// is seen is left unsaid.
    pub fn is_open(&self) -> (r: bool)
        ensures
            crate::flag::can_hold(self.open_flag(), r),
            r == crate::flag::initial_value(self.open_flag()) || crate::flag::ever_stored(
                self.open_flag(),
                r,
            ),
    {
        self.is_open.load()
    }

    /// The window's handle if the window is found open, the empty handle
    /// otherwise.
    pub fn raw_window_handle(&self) -> (r: RawWindowHandle)
        ensures
            exists|open: bool| #[trigger]
                crate::flag::can_hold(self.open_flag(), open) && r == visible_handle(
                    self.raw(),
                    open,
                ),
            self.raw() is None ==> r == no_window(),
    {
        choose_handle(self.raw_window_handle, self.is_open())
    }
}

impl ParentHandle {
    /// The flag that asks the window to close.
    pub closed spec fn close_flag(self) -> AtomicBool {
        self.close_requested.identity()
    }

    /// The flag that says that the window is open.
    pub closed spec fn open_flag(self) -> AtomicBool {
        self.is_open.identity()
    }

    /// All that this end has stored in the flag that says that the window is
    /// open.
    pub closed spec fn open_stores(self) -> Seq<bool> {
        self.is_open.stores()
    }

    /// The two ends of a window that is about to be opened. They share both
    /// flags; neither end has stored anything, so nobody has asked the window to
    /// close, and it counts as open. The owner's end has no handle and no thread
    /// yet. That no other pair has the same flags is left unsaid.
    pub fn new<J>() -> (r: (ParentHandle, WindowHandle<J>))
        ensures
            r.0.close_flag() == r.1.close_flag(),
            r.0.open_flag() == r.1.open_flag(),
            r.0.close_flag() != r.0.open_flag(),
            !crate::flag::initial_value(r.0.close_flag()),
            crate::flag::initial_value(r.0.open_flag()),
            r.0.open_stores() == Seq::<bool>::empty(),
            r.1.close_stores() == Seq::<bool>::empty(),
            r.1.raw() is None,
            r.1.event_loop() is None,
    {
        let (close_requested, close_seen) = new_flag(false);
        let (is_open, open_seen) = new_flag(true);
        let handle = WindowHandle {
            raw_window_handle: None,
            event_loop_handle: None,
            close_requested,
            is_open: open_seen,
        };
        (ParentHandle { close_requested: close_seen, is_open }, handle)
    }

    /// Whether the owner has asked the window to close: what the flag for that
    /// held at first, or what is stored in it. When the other thread's store is
    /// seen is left unsaid.
    pub fn parent_did_drop(&self) -> (r: bool)
        ensures
            crate::flag::can_hold(self.close_flag(), r),
            r == crate::flag::initial_value(self.close_flag()) || crate::flag::ever_stored(
                self.close_flag(),
                r,
            ),
    {
        self.close_requested.load()
    }
}

impl Drop for ParentHandle {
    /// Tells the owner that the window is gone.
    fn drop(&mut self)
        ensures
            final(self).open_stores() == old(self).open_stores().push(false),
            crate::flag::ever_stored(final(self).open_flag(), false),
            final(self).close_flag() == old(self).close_flag(),
            final(self).open_flag() == old(self).open_flag(),
        opens_invariants none
        no_unwind
    {
        self.is_open.store(false);
    }
}

} // verus!
