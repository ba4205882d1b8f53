//! What calls on the two ends of a window, on a sequence of requests and on the
//! handles of windows do. Each law speaks of calls as they are made, for every
//! value and every argument.

use raw_window_handle::RawWindowHandle;
use vstd::prelude::*;

use crate::flag::Flag;
use crate::geometry::{PhyPoint, PhySize};
use crate::handle::{choose_handle, ParentHandle, WindowHandle};
use crate::raw_handle::{parent_window_id, ParentWindow};
use crate::request::Request;
use crate::sequence::{OnFailure, Sequence};
use crate::window::{pointer_position, Window};

verus! {

/// What is read in a flag is what it was made with, or a value that is stored in
/// it at some moment.
pub proof fn a_flag_is_not_made_up(flag: &Flag, value: bool)
    requires
        call_ensures(Flag::load, (flag,), value),
    ensures
        value != crate::flag::initial_value(flag.identity()) ==> crate::flag::ever_stored(
            flag.identity(),
            value,
        ),
{
}

/// The owner of a new pair finds the window closed only if the window's end stores
/// that it is, and the window finds itself asked to close only if the owner's end
/// stores that. Before a handle is attached, the owner gives out the empty one.
pub proof fn a_new_pair_is_open<J>(
    pair: (ParentHandle, WindowHandle<J>),
    open: bool,
    asked: bool,
    handle: RawWindowHandle,
)
    requires
        call_ensures(ParentHandle::new::<J>, (), pair),
        call_ensures(WindowHandle::<J>::is_open, (&pair.1,), open),
        call_ensures(ParentHandle::parent_did_drop, (&pair.0,), asked),
        call_ensures(WindowHandle::<J>::raw_window_handle, (&pair.1,), handle),
    ensures
        !open ==> crate::flag::ever_stored(pair.0.open_flag(), false),
        asked ==> crate::flag::ever_stored(pair.1.close_flag(), true),
        handle == crate::raw_handle::xlib_window_handle(0, 0),
{
}

/// The thread that was attached is handed out by the first call to close, and by
/// no later one; each of the two calls stores the request to close, and nothing
/// else.
pub proof fn the_thread_is_handed_out_once<J>(
    attached: &mut WindowHandle<J>,
    raw: RawWindowHandle,
    thread: J,
    first: &mut WindowHandle<J>,
    handed: Option<J>,
    second: &mut WindowHandle<J>,
    nothing: Option<J>,
)
    requires
        call_ensures(WindowHandle::<J>::attach, (attached, raw, thread), ()),
        call_ensures(WindowHandle::<J>::close, (first,), handed),
        call_ensures(WindowHandle::<J>::close, (second,), nothing),
        *old(first) == *final(attached),
        *old(second) == *final(first),
    ensures
        handed == Some(thread),
        nothing is None,
        final(second).close_stores() == old(attached).close_stores() + seq![true, true],
        final(second).close_flag() == old(attached).close_flag(),
        final(second).open_flag() == old(attached).open_flag(),
        final(second).raw() == Some(raw),
        crate::flag::ever_stored(old(attached).close_flag(), true),
{
}

/// Once a handle is attached to a window that was open at first, that handle is
/// the one given out, or else the empty one, and then only if the window's end
/// stores that the window is closed.
pub proof fn the_attached_handle_is_given_out<J>(
    attached: &mut WindowHandle<J>,
    raw: RawWindowHandle,
    thread: J,
    owner: &WindowHandle<J>,
    handle: RawWindowHandle,
)
    requires
        call_ensures(WindowHandle::<J>::attach, (attached, raw, thread), ()),
        *owner == *final(attached),
        call_ensures(WindowHandle::<J>::raw_window_handle, (owner,), handle),
        crate::flag::initial_value(old(attached).open_flag()),
    ensures
        handle == raw || handle == crate::raw_handle::xlib_window_handle(0, 0)
            && crate::flag::ever_stored(old(attached).open_flag(), false),
{
}

/// Of a window that is open, its own handle is given out, whichever that is; of
/// one that is closed or has no handle yet, the empty one.
pub proof fn an_open_window_shows_its_handle(
    raw: Option<RawWindowHandle>,
    open: bool,
    handle: RawWindowHandle,
)
    requires
        call_ensures(choose_handle, (raw, open), handle),
    ensures
        open ==> (raw matches Some(own) ==> handle == own),
        !open || raw is None ==> handle == crate::raw_handle::xlib_window_handle(0, 0),
{
}

/// A window of Xlib is known to X11 by the low 32 bits of its id, a window of XCB
/// by its id, and a window of any other windowing system not at all.
pub proof fn a_parent_has_its_x11_id(handle: RawWindowHandle, id: Option<u32>)
    requires
        call_ensures(parent_window_id, (handle,), id),
    ensures
        crate::raw_handle::handle_window(handle) matches ParentWindow::Xlib(window) ==> id is Some
            && (window - id->0) % 0x1_0000_0000 == 0,
        crate::raw_handle::handle_window(handle) matches ParentWindow::Xcb(window) ==> id == Some(
            window,
        ),
        crate::raw_handle::handle_window(handle) is Unsupported ==> id is None,
{
}

/// A window can be opened inside of another by the handle that the other gives
/// out: as a parent, that handle names the very window.
pub proof fn a_window_can_be_a_parent<G>(
    window: &Window<G>,
    handle: RawWindowHandle,
    id: Option<u32>,
)
    requires
        call_ensures(Window::<G>::raw_window_handle, (window,), handle),
        call_ensures(parent_window_id, (handle,), id),
    ensures
        id == Some(window.window_id),
        handle == crate::raw_handle::xlib_window_handle(window.window_id, window.visual_id),
{
}

/// A pointer on the window's screen is where the server says; one on another
/// screen is nowhere.
pub proof fn the_pointer_is_where_the_server_says(
    same_screen: bool,
    win_x: i16,
    win_y: i16,
    position: Option<PhyPoint>,
)
    requires
        call_ensures(pointer_position, (same_screen, win_x, win_y), position),
    ensures
        position is Some <==> same_screen,
        position matches Some(point) ==> point.x == win_x && point.y == win_y,
{
}

/// The middle of a window is as far from one edge as from the other, up to the
/// pixel that an odd side has over, as long as no side has 2^31 pixels or more.
/// A longer side counts as the negative number that its 32 bits stand for, and is
/// halved towards zero.
pub proof fn the_middle_halves_both_sides(size: &PhySize, middle: PhyPoint)
    requires
        call_ensures(PhySize::center, (size,), middle),
    ensures
        size.width < 0x8000_0000 ==> 0 <= size.width - 2 * middle.x <= 1,
        size.height < 0x8000_0000 ==> 0 <= size.height - 2 * middle.y <= 1,
        size.width >= 0x8000_0000 ==> 0 <= 2 * middle.x - (size.width - 0x1_0000_0000) <= 1,
        size.height >= 0x8000_0000 ==> 0 <= 2 * middle.y - (size.height - 0x1_0000_0000) <= 1,
{
}

/// The request to send is the first of those that have not been handed out; there
/// is none exactly when all have been, or when a failure has stopped the sequence.
pub proof fn requests_come_in_order<E>(sequence: &Sequence<E>, request: Option<&Request>)
    requires
        call_ensures(Sequence::<E>::next_request, (sequence,), request),
    ensures
        request is Some <==> sequence.progress().failure is None && sequence.progress().sent
            < sequence.requests().len(),
        request matches Some(next) ==> *next
            == sequence.requests()[sequence.progress().sent as int],
{
}

/// A report is about the request that was to be sent, and the next one is then to
/// be sent. It stops the sequence only if it is bad and failures are not ignored,
/// and then the sequence keeps what it reports. Once no request is left, reports
/// change nothing. The requests, and what a failure means for them, stay as they
/// are.
pub proof fn a_report_moves_on_by_one<E>(sequence: &mut Sequence<E>, reply: Result<(), E>)
    requires
        call_ensures(Sequence::<E>::replied, (sequence, reply), ()),
    ensures
        final(sequence).requests() == old(sequence).requests(),
        final(sequence).on_failure() == old(sequence).on_failure(),
        ({
            let before = old(sequence).progress();
            let after = final(sequence).progress();
            let counts = before.failure is None && before.sent < old(sequence).requests().len();
            let stops = old(sequence).on_failure() == OnFailure::Stop && reply is Err;
            &&& counts ==> after.sent == before.sent + 1
            &&& counts && stops ==> after.failure == Some(reply->Err_0)
            &&& counts && !stops ==> after.failure is None
            &&& !counts ==> after == before
        }),
{
}

/// A sequence has an outcome exactly when no request is left to be sent: the
/// failure that stopped it, if one did, and success otherwise.
pub proof fn the_outcome_is_the_failure<E>(
    sequence: Sequence<E>,
    request: Option<&Request>,
    outcome: Option<Result<(), E>>,
)
    requires
        call_ensures(Sequence::<E>::next_request, (&sequence,), request),
        call_ensures(Sequence::<E>::outcome, (sequence,), outcome),
    ensures
        outcome is Some <==> request is None,
        sequence.progress().failure matches Some(error) ==> outcome == Some(
            Err::<(), E>(error),
        ),
        sequence.progress().failure is None && outcome is Some ==> outcome == Some(
            Ok::<(), E>(()),
        ),
{
}

} // verus!
