//! A window's own state, and what each operation on the window does to it and
//! sends to the server.

use raw_window_handle::RawWindowHandle;
use vstd::prelude::*;

use crate::cursor::MouseCursor;
use crate::geometry::{PhyPoint, PhySize};
use crate::raw_handle::new_xlib_handle;
use crate::request::{set_cursor, set_size, warp_pointer, Request};
use crate::sequence::{OnFailure, Sequence};

verus! {

/// An open window. `G` is the context that OpenGL draws into it with.
#[derive(Debug)]
pub struct Window<G> {
    pub gl_context: Option<G>,
    /// The id that the server knows the window by.
    pub window_id: u32,
    /// The visual that the window was made with.
    pub visual_id: u32,
    /// The root window of the screen that the window is on.
    pub root: u32,
    /// The size that the server last reported.
    pub physical_size: PhySize,
    pub mouse_cursor: MouseCursor,
    /// Whether the window has been asked to close.
    pub close_requested: bool,
    /// Whether unbounded mouse movement mode is active.
    pub unbounded_mouse_movement: bool,
    /// The cursor position when unbounded mode was enabled, in window
    /// coordinates.
    pub unbounded_origin: Option<PhyPoint>,
    /// Whether to restore the position when unbounded mode ends.
    pub restore_position_on_disable: bool,
    /// Whether a pointer movement of our own making is still to be reported.
    pub expecting_warp: bool,
    /// The movement gathered during unbounded mode.
    pub unbounded_delta: (i32, i32),
    /// Whether the cursor is shown over the window.
    pub cursor_visible: bool,
    /// The id of the invisible cursor, once it has been made.
    pub invisible_cursor: Option<u32>,
}

/// What an operation needs next. `E` is what a request that could not be sent is
/// reported as.
#[derive(Debug)]
pub enum Step<E> {
    /// Nothing: the operation has no effect, or is over.
    Done,
    /// These requests are to be sent; the operation is then over.
    Send(Sequence<E>),
    /// Two fresh resource ids are to be asked for, for a pixmap and then for a
    /// cursor.
    GenerateCursorIds,
    /// The requests are to be sent, and then the server is to be asked where the
    /// pointer is in the window.
    QueryPointer { first: Sequence<E> },
    /// The requests are to be sent, and then the server's id for the cursor is
    /// to be looked up.
    LookUpCursor { first: Sequence<E>, cursor: MouseCursor },
}

impl<E> Step<E> {
    /// Whether this asks for exactly `requests` to be sent, failures being
    /// passed over.
    pub open spec fn sends(self, requests: Seq<Request>) -> bool {
        self matches Step::Send(sequence) && sequence.starts(requests, OnFailure::Ignore)
    }

    /// Whether this asks for the pointer to be looked for once exactly `requests`
    /// have been sent, failures being passed over.
    pub open spec fn queries_pointer(self, requests: Seq<Request>) -> bool {
        self matches Step::QueryPointer { first } && first.starts(requests, OnFailure::Ignore)
    }

    /// Whether this asks for `cursor` to be looked up once exactly `requests`
    /// have been sent, failures being passed over.
    pub open spec fn looks_up(self, requests: Seq<Request>, shape: MouseCursor) -> bool {
        self matches Step::LookUpCursor { first, cursor } && cursor == shape && first.starts(
            requests,
            OnFailure::Ignore,
        )
    }
}

/// The requests that make `cursor` a cursor of one transparent pixel, by way of
/// the bitmap `pixmap` on the screen of `root`.
pub open spec fn invisible_cursor_requests(root: u32, pixmap: u32, cursor: u32) -> Seq<Request> {
    seq![
        Request::CreatePixmap { depth: 1, pixmap, drawable: root, width: 1, height: 1 },
        Request::CreateCursor {
            cursor,
            source: pixmap,
            mask: pixmap,
            fore_red: 0,
            fore_green: 0,
            fore_blue: 0,
            back_red: 0,
            back_green: 0,
            back_blue: 0,
            x: 0,
            y: 0,
        },
        Request::FreePixmap { pixmap },
    ]
}

/// The request that gives `window` the cursor `cursor`, or none if there is no
/// such cursor.
pub open spec fn cursor_if_any(window: u32, cursor: Option<u32>) -> Seq<Request> {
    match cursor {
        Some(cursor) => seq![crate::request::cursor_request(window, cursor)],
        None => seq![],
    }
}

/// Where the server's answer says that the pointer is in the window: its
/// coordinates there, unless it is on another screen.
pub fn pointer_position(same_screen: bool, win_x: i16, win_y: i16) -> (r: Option<PhyPoint>)
    ensures
        r == if same_screen {
            Some(PhyPoint { x: win_x as i32, y: win_y as i32 })
        } else {
            None
        },
{
    if same_screen {
        Some(PhyPoint::new(win_x as i32, win_y as i32))
    } else {
        None
    }
}

/// `id`, unless it is zero, which the server uses for no resource.
pub open spec fn nonzero(id: u32) -> Option<u32> {
    if id != 0 {
        Some(id)
    } else {
        None
    }
}

/// What a reply to a request for an id gives: zero if the request failed.
pub open spec fn id_or_zero(id: Option<u32>) -> u32 {
    match id {
        Some(id) => id,
        None => 0,
    }
}

/// The cursor that two fresh ids give: none unless both are there.
pub open spec fn made_cursor(pixmap_id: Option<u32>, cursor_id: Option<u32>) -> Option<u32> {
    if id_or_zero(pixmap_id) != 0 {
        nonzero(id_or_zero(cursor_id))
    } else {
        None
    }
}

/// The request that gives `window` the cursor `cursor`, if there is such a
/// cursor, and then a flush.
fn requests_for_cursor(window: u32, cursor: Option<u32>) -> (r: Vec<Request>)
    ensures
        r@ == cursor_if_any(window, cursor) + seq![Request::Flush],
{
    let mut requests = Vec::new();
    if let Some(cursor) = cursor {
        requests.push(set_cursor(window, cursor));
    }
    requests.push(Request::Flush);
    assert(requests@ =~= cursor_if_any(window, cursor) + seq![Request::Flush]);
    requests
}

impl<G> Window<G> {
    /// What holds of a window between operations: unbounded mode has an origin
    /// exactly while it is active, no movement is gathered outside it, and the
    /// invisible cursor has a proper id.
    pub open spec fn well_formed(self) -> bool {
        &&& self.unbounded_mouse_movement <==> self.unbounded_origin is Some
        &&& !self.unbounded_mouse_movement ==> self.unbounded_delta == (0i32, 0i32)
        &&& self.invisible_cursor != Some(0u32)
    }

    /// A window as it is when it has just been opened.
    pub open spec fn opened(
        window_id: u32,
        visual_id: u32,
        root: u32,
        physical_size: PhySize,
        gl_context: Option<G>,
    ) -> Window<G> {
        Window {
            gl_context,
            window_id,
            visual_id,
            root,
            physical_size,
            mouse_cursor: MouseCursor::Default,
            close_requested: false,
            unbounded_mouse_movement: false,
            unbounded_origin: None,
            restore_position_on_disable: false,
            expecting_warp: false,
            unbounded_delta: (0i32, 0i32),
            cursor_visible: true,
            invisible_cursor: None,
        }
    }

    /// Where unbounded mode begins: at the pointer, or in the middle of the
    /// window if it is not known where the pointer is.
    pub open spec fn origin(self, pointer: Option<PhyPoint>) -> PhyPoint {
        match pointer {
            Some(position) => position,
            None => self.physical_size.spec_center(),
        }
    }

    /// The window once unbounded mode has been enabled, with the pointer where
    /// it was just before.
    pub open spec fn unbounded(self, pointer: Option<PhyPoint>) -> Window<G> {
        Window {
            unbounded_mouse_movement: true,
            unbounded_origin: Some(self.origin(pointer)),
            expecting_warp: true,
            unbounded_delta: (0i32, 0i32),
            cursor_visible: false,
            ..self
        }
    }

    /// The requests that enable unbounded mode: the window gets the invisible
    /// cursor, if there is one, and the pointer goes to the middle.
    pub open spec fn unbounded_requests(self) -> Seq<Request> {
        cursor_if_any(self.window_id, nonzero(id_or_zero(self.invisible_cursor))) + seq![
            crate::request::warp_to(self.window_id, self.physical_size.spec_center()),
            Request::Flush,
        ]
    }

    /// The window once unbounded mode has been disabled, but for the note that
    /// the pointer is about to move.
    pub open spec fn bounded(self) -> Window<G> {
        Window {
            unbounded_mouse_movement: false,
            unbounded_origin: None,
            unbounded_delta: (0i32, 0i32),
            cursor_visible: true,
            ..self
        }
    }

    /// Whether disabling unbounded mode moves the pointer back.
    pub open spec fn returns_pointer(self) -> bool {
        self.restore_position_on_disable && self.unbounded_origin is Some
    }

    /// The request that moves the pointer back to where unbounded mode began,
    /// if it is to be moved back.
    pub open spec fn return_requests(self) -> Seq<Request> {
        if self.returns_pointer() {
            seq![crate::request::warp_to(self.window_id, self.unbounded_origin->0)]
        } else {
            seq![]
        }
    }

    /// The window while unbounded mode is being disabled: it knows that the
    /// pointer is about to move, if it is.
    pub open spec fn leaving_unbounded(self) -> Window<G> {
        Window { expecting_warp: self.expecting_warp || self.returns_pointer(), ..self }
    }

    /// The window once `enable_unbounded_mouse_movement` has returned.
    pub open spec fn after_toggle(self, enable: bool, restore_position: bool) -> Window<G> {
        if enable == self.unbounded_mouse_movement {
            self
        } else if !enable {
            self.leaving_unbounded()
        } else {
            Window { restore_position_on_disable: restore_position, ..self }
        }
    }

    /// The window once `cursor_ids_generated` has returned.
    pub open spec fn after_ids(
        self,
        pixmap_id: Option<u32>,
        cursor_id: Option<u32>,
    ) -> Window<G> {
        match made_cursor(pixmap_id, cursor_id) {
            Some(cursor) => Window { invisible_cursor: Some(cursor), ..self },
            None => self,
        }
    }

    /// The window once `set_cursor_visible` has returned.
    pub open spec fn after_visibility(self, visible: bool) -> Window<G> {
        if visible {
            self
        } else {
            Window { cursor_visible: false, ..self }
        }
    }

    /// A window that has just been opened.
    pub fn new(
        window_id: u32,
        visual_id: u32,
        root: u32,
        physical_size: PhySize,
        gl_context: Option<G>,
    ) -> (r: Window<G>)
        ensures
            r == Window::opened(window_id, visual_id, root, physical_size, gl_context),
            r.well_formed(),
    {
        Window {
            gl_context,
            window_id,
            visual_id,
            root,
            physical_size,
            mouse_cursor: MouseCursor::default(),
            close_requested: false,
            unbounded_mouse_movement: false,
            unbounded_origin: None,
            restore_position_on_disable: false,
            expecting_warp: false,
            unbounded_delta: (0, 0),
            cursor_visible: true,
            invisible_cursor: None,
        }
    }

    /// Starts enabling or disabling unbounded mouse movement. Nothing happens
    /// if the mode already is as asked for.
    ///
    /// To enable the mode takes an invisible cursor. If the window has none yet,
    /// two ids have to be generated first: hand them to `cursor_ids_generated`.
    /// Then the server has to be asked where the pointer is: hand the answer to
    /// `pointer_queried`. Whether the pointer is to be moved back there in the
    /// end is noted at once.
    ///
    /// To disable the mode, the pointer is first moved back to where it was, if
    /// that was asked for when the mode was enabled. Then the cursor that the
    /// window had before has to be looked up: hand it to `bounded_cursor_found`.
    pub fn enable_unbounded_mouse_movement<E>(
        &mut self,
        enable: bool,
        restore_position: bool,
    ) -> (r: Step<E>)
        ensures
            *final(self) == old(self).after_toggle(enable, restore_position),
            enable == old(self).unbounded_mouse_movement ==> r is Done,
            enable && !old(self).unbounded_mouse_movement ==> match old(self).invisible_cursor {
                Some(_) => r.queries_pointer(seq![]),
                None => r is GenerateCursorIds,
            },
            !enable && old(self).unbounded_mouse_movement ==> r.looks_up(
                old(self).return_requests(),
                old(self).mouse_cursor,
            ),
            old(self).well_formed() ==> final(self).well_formed(),
    {
        if enable && !self.unbounded_mouse_movement {
            self.restore_position_on_disable = restore_position;
            if self.invisible_cursor.is_some() {
                Step::QueryPointer { first: Sequence::new(Vec::new(), OnFailure::Ignore) }
            } else {
                Step::GenerateCursorIds
            }
        } else if !enable && self.unbounded_mouse_movement {
            let mut requests = Vec::new();
            if self.restore_position_on_disable {
                if let Some(origin) = self.unbounded_origin {
                    requests.push(warp_pointer(self.window_id, origin));
                    self.expecting_warp = true;
                }
            }
            assert(requests@ == old(self).return_requests());
            Step::LookUpCursor {
                first: Sequence::new(requests, OnFailure::Ignore),
                cursor: self.mouse_cursor,
            }
        } else {
            Step::Done
        }
    }

    /// Goes on enabling unbounded mode with the ids that were generated for a
    /// pixmap and a cursor, `None` for one that could not be had. With both,
    /// the invisible cursor is made and kept; else there is none. Next the
    /// pointer has to be looked for.
    pub fn cursor_ids_generated<E>(
        &mut self,
        pixmap_id: Option<u32>,
        cursor_id: Option<u32>,
    ) -> (r: Step<E>)
        ensures
            *final(self) == old(self).after_ids(pixmap_id, cursor_id),
            r.queries_pointer(
                match made_cursor(pixmap_id, cursor_id) {
                    Some(cursor) => invisible_cursor_requests(
                        old(self).root,
                        id_or_zero(pixmap_id),
                        cursor,
                    ),
                    None => seq![],
                },
            ),
            old(self).well_formed() ==> final(self).well_formed(),
    {
        let pixmap = pixmap_id.unwrap_or(0);
        let cursor = cursor_id.unwrap_or(0);
        let mut requests = Vec::new();
        if pixmap != 0 && cursor != 0 {
            requests.push(
                Request::CreatePixmap {
                    depth: 1,
                    pixmap,
                    drawable: self.root,
                    width: 1,
                    height: 1,
                },
            );
            requests.push(
                Request::CreateCursor {
                    cursor,
                    source: pixmap,
                    mask: pixmap,
                    fore_red: 0,
                    fore_green: 0,
                    fore_blue: 0,
                    back_red: 0,
                    back_green: 0,
                    back_blue: 0,
                    x: 0,
                    y: 0,
                },
            );
            requests.push(Request::FreePixmap { pixmap });
            self.invisible_cursor = Some(cursor);
            assert(requests@ =~= invisible_cursor_requests(self.root, pixmap, cursor));
        }
        Step::QueryPointer { first: Sequence::new(requests, OnFailure::Ignore) }
    }

    /// Ends enabling unbounded mode, with the place where the pointer is in the
    /// window, if that is known. The mode begins there, and the pointer is moved
    /// to the middle of the window. A pointer whose place is not known counts as
    /// being in the middle.
    pub fn pointer_queried<E>(&mut self, pointer: Option<PhyPoint>) -> (r: Step<E>)
        ensures
            *final(self) == old(self).unbounded(pointer),
            final(self).unbounded_origin == Some(
                match pointer {
                    Some(position) => position,
                    None => old(self).physical_size.spec_center(),
                },
            ),
            r.sends(old(self).unbounded_requests()),
            match old(self).invisible_cursor {
                Some(cursor) => cursor != 0 ==> {
                    &&& r matches Step::Send(sequence)
                    &&& sequence.requests().len() == 3
                    &&& sequence.requests()[0] == (Request::ChangeWindowAttributes {
                        window: old(self).window_id,
                        values: crate::values::cursor_values(cursor),
                    })
                    &&& sequence.requests()[1] is WarpPointer
                    &&& sequence.requests()[2] is Flush
                },
                None => {
                    &&& r matches Step::Send(sequence)
                    &&& sequence.requests().len() == 2
                    &&& sequence.requests()[0] is WarpPointer
                    &&& sequence.requests()[1] is Flush
                },
            },
            old(self).well_formed() ==> final(self).well_formed(),
    {
        let center = self.physical_size.center();
        let invisible = self.invisible_cursor.unwrap_or(0);
        let mut requests = Vec::new();
        self.unbounded_origin = Some(pointer.unwrap_or(center));
        self.unbounded_delta = (0, 0);
        if invisible != 0 {
            requests.push(set_cursor(self.window_id, invisible));
        }
        self.cursor_visible = false;
        requests.push(warp_pointer(self.window_id, center));
        self.expecting_warp = true;
        requests.push(Request::Flush);
        self.unbounded_mouse_movement = true;
        assert(requests@ =~= old(self).unbounded_requests());
        Step::Send(Sequence::new(requests, OnFailure::Ignore))
    }

    /// Ends disabling unbounded mode, with the server's id for the cursor that
    /// the window had before, if it was found.
    pub fn bounded_cursor_found<E>(&mut self, cursor: Option<u32>) -> (r: Sequence<E>)
        ensures
            r.starts(
                cursor_if_any(old(self).window_id, cursor) + seq![Request::Flush],
                OnFailure::Ignore,
            ),
            *final(self) == old(self).bounded(),
            old(self).well_formed() ==> final(self).well_formed(),
    {
        let requests = requests_for_cursor(self.window_id, cursor);
        self.cursor_visible = true;
        self.unbounded_mouse_movement = false;
        self.unbounded_origin = None;
        self.unbounded_delta = (0, 0);
        Sequence::new(requests, OnFailure::Ignore)
    }

    /// Whether unbounded mouse movement mode is active.
    pub fn is_unbounded_mouse_movement_enabled(&self) -> (r: bool)
        ensures
            r == self.unbounded_mouse_movement,
    {
        self.unbounded_mouse_movement
    }

    /// Starts showing or hiding the cursor over the window. Nothing happens if
    /// it already is as asked for.
    ///
    /// To show it, the window's cursor has to be looked up: hand it to
    /// `visible_cursor_found`. To hide it, the window gets the invisible cursor,
    /// if that has been made.
    pub fn set_cursor_visible<E>(&mut self, visible: bool) -> (r: Step<E>)
        ensures
            *final(self) == old(self).after_visibility(visible),
            final(self).cursor_visible == (old(self).cursor_visible && visible),
            visible == old(self).cursor_visible ==> r is Done,
            visible && !old(self).cursor_visible ==> r.looks_up(seq![], old(self).mouse_cursor),
            !visible && old(self).cursor_visible ==> r.sends(
                cursor_if_any(old(self).window_id, old(self).invisible_cursor)
                    + seq![Request::Flush],
            ),
            old(self).well_formed() ==> final(self).well_formed(),
    {
        if visible == self.cursor_visible {
            return Step::Done;
        }
        if visible {
            Step::LookUpCursor {
                first: Sequence::new(Vec::new(), OnFailure::Ignore),
                cursor: self.mouse_cursor,
            }
        } else {
            let requests = requests_for_cursor(self.window_id, self.invisible_cursor);
            self.cursor_visible = false;
            Step::Send(Sequence::new(requests, OnFailure::Ignore))
        }
    }

    /// Ends showing the cursor, with the server's id for it, if it was found.
    pub fn visible_cursor_found<E>(&mut self, cursor: Option<u32>) -> (r: Sequence<E>)
        ensures
            *final(self) == (Window { cursor_visible: true, ..*old(self) }),
            r.starts(
                cursor_if_any(old(self).window_id, cursor) + seq![Request::Flush],
                OnFailure::Ignore,
            ),
            old(self).well_formed() ==> final(self).well_formed(),
    {
        let requests = requests_for_cursor(self.window_id, cursor);
        self.cursor_visible = true;
        Sequence::new(requests, OnFailure::Ignore)
    }

    /// Starts giving the cursor another shape. Nothing happens if it has that
    /// shape already; else the server's id for the shape has to be looked up:
    /// hand it to `mouse_cursor_found`.
    pub fn set_mouse_cursor<E>(&self, mouse_cursor: MouseCursor) -> (r: Step<E>)
        ensures
            mouse_cursor == self.mouse_cursor ==> r is Done,
            mouse_cursor != self.mouse_cursor ==> r.looks_up(seq![], mouse_cursor),
    {
        if self.mouse_cursor == mouse_cursor {
            Step::Done
        } else {
            Step::LookUpCursor {
                first: Sequence::new(Vec::new(), OnFailure::Ignore),
                cursor: mouse_cursor,
            }
        }
    }

    /// Ends giving the cursor the shape `mouse_cursor`, with the server's id for
    /// it. An id of zero stands for no cursor of that shape: the shape is noted,
    /// and the cursor stays as it is.
    pub fn mouse_cursor_found<E>(&mut self, mouse_cursor: MouseCursor, cursor: u32) -> (r: Step<E>)
        ensures
            *final(self) == (Window { mouse_cursor, ..*old(self) }),
            cursor == 0 ==> r is Done,
            cursor != 0 ==> r.sends(
                seq![
                    Request::ChangeWindowAttributes {
                        window: old(self).window_id,
                        values: crate::values::cursor_values(cursor),
                    },
                    Request::Flush,
                ],
            ),
            old(self).well_formed() ==> final(self).well_formed(),
    {
        self.mouse_cursor = mouse_cursor;
        if cursor != 0 {
            let requests = requests_for_cursor(self.window_id, Some(cursor));
            assert(requests@ =~= seq![
                Request::ChangeWindowAttributes {
                    window: self.window_id,
                    values: crate::values::cursor_values(cursor),
                },
                Request::Flush,
            ]);
            Step::Send(Sequence::new(requests, OnFailure::Ignore))
        } else {
            Step::Done
        }
    }

    /// Moves the pointer to `physical`, in window coordinates. The first request
    /// that cannot be sent makes the whole operation fail.
    pub fn set_cursor_position<E>(&self, physical: PhyPoint) -> (r: Sequence<E>)
        ensures
            r.starts(
                seq![crate::request::warp_to(self.window_id, physical), Request::Flush],
                OnFailure::Stop,
            ),
    {
        let mut requests = Vec::new();
        requests.push(warp_pointer(self.window_id, physical));
        requests.push(Request::Flush);
        assert(requests@ =~= seq![
            crate::request::warp_to(self.window_id, physical),
            Request::Flush,
        ]);
        Sequence::new(requests, OnFailure::Stop)
    }

    /// Asks the server for another size. The size kept here follows when the
    /// server reports that it has changed.
    pub fn resize<E>(&self, size: PhySize) -> (r: Sequence<E>)
        ensures
            r.starts(
                seq![
                    Request::ConfigureWindow {
                        window: self.window_id,
                        values: crate::values::size_values(size.width, size.height),
                    },
                    Request::Flush,
                ],
                OnFailure::Ignore,
            ),
    {
        let mut requests = Vec::new();
        requests.push(set_size(self.window_id, size));
        requests.push(Request::Flush);
        assert(requests@ =~= seq![
            Request::ConfigureWindow {
                window: self.window_id,
                values: crate::values::size_values(size.width, size.height),
            },
            Request::Flush,
        ]);
        Sequence::new(requests, OnFailure::Ignore)
    }

    /// Asks for the window to close.
    pub fn close(&mut self)
        ensures
            *final(self) == (Window { close_requested: true, ..*old(self) }),
            old(self).well_formed() ==> final(self).well_formed(),
    {
        self.close_requested = true;
    }

    /// The context that OpenGL draws with, if the window has one.
    pub fn gl_context(&self) -> (r: Option<&G>)
        ensures
            r == match self.gl_context {
                Some(context) => Some(&context),
                None => None,
            },
    {
        self.gl_context.as_ref()
    }

    /// The handle by which other libraries can use the window.
    pub fn raw_window_handle(&self) -> (r: RawWindowHandle)
        ensures
            r == crate::raw_handle::xlib_window_handle(self.window_id, self.visual_id),
            crate::raw_handle::handle_window(r) == crate::raw_handle::ParentWindow::Xlib(
                self.window_id as u64,
            ),
            crate::raw_handle::handle_window(r).spec_window_id() == Some(self.window_id),
    {
        new_xlib_handle(self.window_id, self.visual_id)
    }
}

} // verus!
