//! The shapes that the mouse cursor can take.

use vstd::prelude::*;

verus! {

/// A shape of the mouse cursor.
#[derive(Clone, Copy, Debug, PartialEq, Eq, Structural)]
pub enum MouseCursor {
    Default,
    Hand,
    HandGrabbing,
    Help,
    Hidden,
    Text,
    VerticalText,
    Working,
    PtrWorking,
    NotAllowed,
    PtrNotAllowed,
    ZoomIn,
    ZoomOut,
    Alias,
    Copy,
    Move,
    AllScroll,
    Cell,
    Crosshair,
    EResize,
    NResize,
    NeResize,
    NwResize,
    SResize,
    SeResize,
    SwResize,
    WResize,
    EwResize,
    NsResize,
    NwseResize,
    NeswResize,
    ColResize,
    RowResize,
}

impl Default for MouseCursor {
    /// The shape that a window starts out with.
    fn default() -> (r: MouseCursor)
        ensures
            r == MouseCursor::Default,
    {
        MouseCursor::Default
    }
}

} // verus!
