//! What calls on a window do: what the window is afterwards, which requests are
//! to be sent, and how a call relates to the one before. Each law speaks of
//! calls as they are made, for every window and every argument.

use vstd::prelude::*;

use crate::cursor::MouseCursor;
use crate::geometry::{PhyPoint, PhySize};
use crate::request::Request;
use crate::sequence::{OnFailure, Sequence};
use crate::window::{Step, Window};

verus! {

/// A new window has the ids, the size and the context that it was made with. Its
/// cursor is shown and has the default shape, unbounded mode is off, and nobody
/// has asked it to close.
pub proof fn a_new_window_is_plain<G>(
    window_id: u32,
    visual_id: u32,
    root: u32,
    physical_size: PhySize,
    gl_context: Option<G>,
    window: Window<G>,
)
    requires
        call_ensures(
            Window::<G>::new,
            (window_id, visual_id, root, physical_size, gl_context),
            window,
        ),
    ensures
        window.window_id == window_id,
        window.visual_id == visual_id,
        window.root == root,
        window.physical_size == physical_size,
        window.gl_context == gl_context,
        window.mouse_cursor is Default,
        window.cursor_visible,
        !window.close_requested,
        !window.unbounded_mouse_movement,
        window.unbounded_origin is None,
        !window.restore_position_on_disable,
        !window.expecting_warp,
        window.unbounded_delta == (0i32, 0i32),
        window.invisible_cursor is None,
{
}

/// Asking for the mode that a window is in does nothing. Asking for unbounded
/// mode notes whether the position is to be restored, and leaves the rest of the
/// window alone; a window with an invisible cursor goes on to ask where the
/// pointer is, and one without asks for the ids of one first.
pub proof fn unbounded_mode_is_begun_once<G, E>(
    window: &mut Window<G>,
    enable: bool,
    restore_position: bool,
    step: Step<E>,
)
    requires
        call_ensures(
            Window::<G>::enable_unbounded_mouse_movement::<E>,
            (window, enable, restore_position),
            step,
        ),
    ensures
        step is Done <==> enable == old(window).unbounded_mouse_movement,
        step is Done ==> *final(window) == *old(window),
        enable && !(step is Done) ==> *final(window) == (Window {
            restore_position_on_disable: restore_position,
            ..*old(window)
        }),
        enable && !(step is Done) && old(window).invisible_cursor is None
            ==> step is GenerateCursorIds,
        enable && !(step is Done) && old(window).invisible_cursor is Some ==> {
            &&& step matches Step::QueryPointer { first }
            &&& first.requests().len() == 0
        },
{
}

/// Of two fresh ids, neither of them zero, the second becomes the invisible
/// cursor: a bitmap of one pixel is made under the first on the window's screen,
/// the cursor is made of it, without any colour, and the bitmap is freed. If an id
/// is missing or zero, nothing is sent and the window has the cursor it had.
/// Nothing else about the window changes.
pub proof fn fresh_ids_make_the_invisible_cursor<G, E>(
    window: &mut Window<G>,
    pixmap_id: Option<u32>,
    cursor_id: Option<u32>,
    step: Step<E>,
)
    requires
        call_ensures(
            Window::<G>::cursor_ids_generated::<E>,
            (window, pixmap_id, cursor_id),
            step,
        ),
    ensures
        *final(window) == (Window {
            invisible_cursor: final(window).invisible_cursor,
            ..*old(window)
        }),
        step matches Step::QueryPointer { first } && first.on_failure() == OnFailure::Ignore
            && first.progress().sent == 0 && first.progress().failure is None,
        pixmap_id is Some && cursor_id is Some && pixmap_id->0 != 0 && cursor_id->0 != 0 ==> {
            &&& final(window).invisible_cursor == cursor_id
            &&& step->QueryPointer_first.requests().len() == 3
            &&& step->QueryPointer_first.requests()[0] == (Request::CreatePixmap {
                depth: 1,
                pixmap: pixmap_id->0,
                drawable: old(window).root,
                width: 1,
                height: 1,
            })
            &&& step->QueryPointer_first.requests()[1] == (Request::CreateCursor {
                cursor: cursor_id->0,
                source: pixmap_id->0,
                mask: pixmap_id->0,
                fore_red: 0,
                fore_green: 0,
                fore_blue: 0,
                back_red: 0,
                back_green: 0,
                back_blue: 0,
                x: 0,
                y: 0,
            })
            &&& step->QueryPointer_first.requests()[2] == (Request::FreePixmap {
                pixmap: pixmap_id->0,
            })
        },
        pixmap_id is None || cursor_id is None || pixmap_id->0 == 0 || cursor_id->0 == 0 ==> {
            &&& final(window).invisible_cursor == old(window).invisible_cursor
            &&& step->QueryPointer_first.requests().len() == 0
        },
{
}

/// A window that enters unbounded mode gets its invisible cursor, if it has one,
/// before anything else; then the pointer goes to the middle of the window, and
/// everything is flushed. This is so whether or not the position is to be
/// restored. A side of the window is halved as the signed 32-bit number that it
/// stands for, and the server is sent the low 16 bits of the half.
pub proof fn unbounded_mode_hides_the_cursor<G, E>(
    window: &mut Window<G>,
    pointer: Option<PhyPoint>,
    step: Step<E>,
)
    requires
        call_ensures(Window::<G>::pointer_queried::<E>, (window, pointer), step),
    ensures
        step matches Step::Send(sequence) && sequence.on_failure() == OnFailure::Ignore
            && sequence.progress().sent == 0 && sequence.progress().failure is None,
        ({
            let requests = step->Send_0.requests();
            let hides = old(window).invisible_cursor is Some && old(window).invisible_cursor->0
                != 0;
            let warp = requests[requests.len() - 2];
            let width = old(window).physical_size.width as int;
            let height = old(window).physical_size.height as int;
            let middle_x = if width < 0x8000_0000 {
                width / 2
            } else {
                -((0x1_0000_0000 - width) / 2)
            };
            let middle_y = if height < 0x8000_0000 {
                height / 2
            } else {
                -((0x1_0000_0000 - height) / 2)
            };
            &&& hides ==> requests.len() == 3 && requests[0] == (Request::ChangeWindowAttributes {
                window: old(window).window_id,
                values: crate::values::cursor_values(old(window).invisible_cursor->0),
            })
            &&& !hides ==> requests.len() == 2
            &&& warp == (Request::WarpPointer {
                src_window: 0,
                dst_window: old(window).window_id,
                src_x: 0,
                src_y: 0,
                src_width: 0,
                src_height: 0,
                dst_x: warp->dst_x,
                dst_y: warp->dst_y,
            })
            &&& (warp->dst_x - middle_x) % 0x1_0000 == 0
            &&& (warp->dst_y - middle_y) % 0x1_0000 == 0
            &&& requests.last() is Flush
            &&& pointer is None ==> {
                &&& final(window).unbounded_origin matches Some(origin)
                &&& origin.x == middle_x
                &&& origin.y == middle_y
            }
            &&& pointer is Some ==> final(window).unbounded_origin == pointer
        }),
        final(window).unbounded_mouse_movement,
        final(window).expecting_warp,
        final(window).unbounded_delta == (0i32, 0i32),
        !final(window).cursor_visible,
        *final(window) == (Window {
            unbounded_mouse_movement: final(window).unbounded_mouse_movement,
            unbounded_origin: final(window).unbounded_origin,
            expecting_warp: final(window).expecting_warp,
            unbounded_delta: final(window).unbounded_delta,
            cursor_visible: final(window).cursor_visible,
            ..*old(window)
        }),
{
}

/// A window without an invisible cursor that is asked for unbounded mode, and is
/// given two fresh ids, is under the second of them while the mode lasts: the
/// request that gives the window that cursor is sent, whatever was asked about
/// the position.
pub proof fn the_cursor_that_was_made_is_used<G, E>(
    asked: &mut Window<G>,
    restore_position: bool,
    asking: Step<E>,
    equipped: &mut Window<G>,
    pixmap: u32,
    cursor: u32,
    making: Step<E>,
    begun: &mut Window<G>,
    pointer: Option<PhyPoint>,
    beginning: Step<E>,
)
    requires
        call_ensures(
            Window::<G>::enable_unbounded_mouse_movement::<E>,
            (asked, true, restore_position),
            asking,
        ),
        call_ensures(
            Window::<G>::cursor_ids_generated::<E>,
            (equipped, Some(pixmap), Some(cursor)),
            making,
        ),
        call_ensures(Window::<G>::pointer_queried::<E>, (begun, pointer), beginning),
        *old(equipped) == *final(asked),
        *old(begun) == *final(equipped),
        asking is GenerateCursorIds,
        pixmap != 0,
        cursor != 0,
    ensures
        making is QueryPointer,
        beginning matches Step::Send(sequence) && sequence.requests().len() == 3
            && sequence.requests()[0] == (Request::ChangeWindowAttributes {
            window: old(asked).window_id,
            values: crate::values::cursor_values(cursor),
        }),
        final(begun).invisible_cursor == Some(cursor),
        final(begun).restore_position_on_disable == restore_position,
{
}

/// A window that leaves unbounded mode asks for the cursor of its own shape. The
/// pointer is first sent back to the origin, and nowhere else, if that was asked
/// for when the mode began; what is asked now makes no difference. Nothing but
/// the note that the pointer is about to move changes yet.
pub proof fn leaving_unbounded_mode_returns_the_pointer<G, E>(
    window: &mut Window<G>,
    ignored: bool,
    step: Step<E>,
)
    requires
        call_ensures(
            Window::<G>::enable_unbounded_mouse_movement::<E>,
            (window, false, ignored),
            step,
        ),
        old(window).unbounded_mouse_movement,
    ensures
        step matches Step::LookUpCursor { first, cursor } && cursor == old(window).mouse_cursor
            && first.on_failure() == OnFailure::Ignore && first.progress().sent == 0
            && first.progress().failure is None,
        ({
            let requests = step->LookUpCursor_first.requests();
            let goes_back = old(window).restore_position_on_disable
                && old(window).unbounded_origin is Some;
            &&& goes_back ==> {
                let origin = old(window).unbounded_origin->0;
                &&& requests.len() == 1
                &&& requests[0] == (Request::WarpPointer {
                    src_window: 0,
                    dst_window: old(window).window_id,
                    src_x: 0,
                    src_y: 0,
                    src_width: 0,
                    src_height: 0,
                    dst_x: requests[0]->dst_x,
                    dst_y: requests[0]->dst_y,
                })
                &&& (requests[0]->dst_x - origin.x) % 0x1_0000 == 0
                &&& (requests[0]->dst_y - origin.y) % 0x1_0000 == 0
                &&& *final(window) == (Window { expecting_warp: true, ..*old(window) })
            }
            &&& !goes_back ==> requests.len() == 0 && *final(window) == *old(window)
        }),
{
}

/// A pointer whose place the server could tell goes back to that very place when
/// unbounded mode ends, if the position is to be restored.
pub proof fn the_pointer_goes_back_where_it_was<G, E>(
    asked: &mut Window<G>,
    asking: Step<E>,
    begun: &mut Window<G>,
    pointer: PhyPoint,
    beginning: Step<E>,
    left: &mut Window<G>,
    ignored: bool,
    leaving: Step<E>,
)
    requires
        call_ensures(
            Window::<G>::enable_unbounded_mouse_movement::<E>,
            (asked, true, true),
            asking,
        ),
        call_ensures(Window::<G>::pointer_queried::<E>, (begun, Some(pointer)), beginning),
        call_ensures(
            Window::<G>::enable_unbounded_mouse_movement::<E>,
            (left, false, ignored),
            leaving,
        ),
        *old(begun) == *final(asked),
        *old(left) == *final(begun),
        asking is QueryPointer,
        -0x8000 <= pointer.x < 0x8000,
        -0x8000 <= pointer.y < 0x8000,
    ensures
        leaving matches Step::LookUpCursor { first, cursor } && cursor == old(asked).mouse_cursor
            && first.requests().len() == 1 && first.requests()[0] == (Request::WarpPointer {
            src_window: 0,
            dst_window: old(asked).window_id,
            src_x: 0,
            src_y: 0,
            src_width: 0,
            src_height: 0,
            dst_x: pointer.x as i16,
            dst_y: pointer.y as i16,
        }),
{
    leaving_unbounded_mode_returns_the_pointer(left, ignored, leaving);
}

/// Once the cursor has been looked up, unbounded mode is over: the window gets
/// that cursor, if it was found, and everything is flushed; the cursor counts as
/// shown, and neither an origin nor any movement is kept. The rest of the window
/// stays as it is.
pub proof fn the_end_of_unbounded_mode_shows_the_cursor<G, E>(
    window: &mut Window<G>,
    cursor: Option<u32>,
    sent: Sequence<E>,
)
    requires
        call_ensures(Window::<G>::bounded_cursor_found::<E>, (window, cursor), sent),
    ensures
        sent.on_failure() == OnFailure::Ignore,
        sent.progress().sent == 0,
        sent.progress().failure is None,
        sent.requests().last() is Flush,
        cursor is None ==> sent.requests().len() == 1,
        cursor matches Some(id) ==> sent.requests().len() == 2 && sent.requests()[0] == (
        Request::ChangeWindowAttributes {
            window: old(window).window_id,
            values: crate::values::cursor_values(id),
        }),
        !final(window).unbounded_mouse_movement,
        final(window).unbounded_origin is None,
        final(window).unbounded_delta == (0i32, 0i32),
        final(window).cursor_visible,
        *final(window) == (Window {
            unbounded_mouse_movement: final(window).unbounded_mouse_movement,
            unbounded_origin: final(window).unbounded_origin,
            unbounded_delta: final(window).unbounded_delta,
            cursor_visible: final(window).cursor_visible,
            ..*old(window)
        }),
{
}

/// The mode that a window tells is the one it is in, so once the mode has been
/// entered it is told as on.
pub proof fn the_mode_is_told<G, E>(
    window: &mut Window<G>,
    pointer: Option<PhyPoint>,
    step: Step<E>,
    after: &Window<G>,
    enabled: bool,
)
    requires
        call_ensures(Window::<G>::pointer_queried::<E>, (window, pointer), step),
        *after == *final(window),
        call_ensures(Window::<G>::is_unbounded_mouse_movement_enabled, (after,), enabled),
    ensures
        enabled,
{
}

/// Asking for the cursor to be shown or hidden ends with the cursor shown or
/// hidden as asked, for every window, with an invisible cursor or without. Nothing
/// is done only if that is how it was. To show it, the window's own shape is
/// looked up and given to the window; to hide it, the window gets its invisible
/// cursor, if there is one. Nothing else about the window changes.
pub proof fn the_cursor_ends_up_as_asked<G, E>(
    start: &mut Window<G>,
    visible: bool,
    step: Step<E>,
    end: &mut Window<G>,
    cursor: Option<u32>,
    sent: Sequence<E>,
)
    requires
        call_ensures(Window::<G>::set_cursor_visible::<E>, (start, visible), step),
        call_ensures(Window::<G>::visible_cursor_found::<E>, (end, cursor), sent),
        *old(end) == *final(start),
    ensures
        step is Done <==> old(start).cursor_visible == visible,
        step is LookUpCursor <==> visible && !old(start).cursor_visible,
        step is Send <==> !visible && old(start).cursor_visible,
        !(step is LookUpCursor) ==> *final(start) == (Window {
            cursor_visible: visible,
            ..*old(start)
        }),
        step is LookUpCursor ==> *final(end) == (Window {
            cursor_visible: visible,
            ..*old(start)
        }),
        step matches Step::Send(hiding) ==> {
            &&& hiding.on_failure() == OnFailure::Ignore
            &&& hiding.progress().sent == 0
            &&& hiding.progress().failure is None
            &&& hiding.requests().last() is Flush
            &&& old(start).invisible_cursor is None ==> hiding.requests().len() == 1
            &&& old(start).invisible_cursor matches Some(id) ==> hiding.requests().len() == 2
                && hiding.requests()[0] == (Request::ChangeWindowAttributes {
                window: old(start).window_id,
                values: crate::values::cursor_values(id),
            })
        },
        step matches Step::LookUpCursor { first, cursor: shape } ==> shape == old(
            start,
        ).mouse_cursor && first.requests().len() == 0,
        sent.on_failure() == OnFailure::Ignore,
        sent.progress().sent == 0,
        sent.progress().failure is None,
        sent.requests().last() is Flush,
        cursor is None ==> sent.requests().len() == 1,
        cursor matches Some(id) ==> sent.requests().len() == 2 && sent.requests()[0] == (
        Request::ChangeWindowAttributes {
            window: old(end).window_id,
            values: crate::values::cursor_values(id),
        }),
{
}

/// A cursor that has been hidden can be shown again: right after it was hidden,
/// asking for it to be shown looks the window's own shape up. Hiding it a second
/// time does nothing.
pub proof fn a_hidden_cursor_can_be_shown<G, E>(
    hide: &mut Window<G>,
    hidden: Step<E>,
    next: &mut Window<G>,
    visible: bool,
    step: Step<E>,
)
    requires
        call_ensures(Window::<G>::set_cursor_visible::<E>, (hide, false), hidden),
        call_ensures(Window::<G>::set_cursor_visible::<E>, (next, visible), step),
        *old(next) == *final(hide),
    ensures
        !final(hide).cursor_visible,
        visible ==> {
            &&& step matches Step::LookUpCursor { cursor, .. }
            &&& cursor == old(hide).mouse_cursor
        },
        !visible ==> step is Done,
{
}

/// A shape other than the one that a window has is looked up; the one it has is
/// not.
pub proof fn a_new_shape_is_looked_up<G, E>(
    window: &Window<G>,
    mouse_cursor: MouseCursor,
    step: Step<E>,
)
    requires
        call_ensures(Window::<G>::set_mouse_cursor::<E>, (window, mouse_cursor), step),
    ensures
        step is Done <==> mouse_cursor == window.mouse_cursor,
        mouse_cursor != window.mouse_cursor ==> {
            &&& step matches Step::LookUpCursor { first, cursor }
            &&& cursor == mouse_cursor
            &&& first.requests().len() == 0
        },
{
}

/// The cursor that was found for a shape is the one that the window gets, whatever
/// its id is, as long as it is not zero. The shape is noted in any case, and
/// nothing else about the window changes.
pub proof fn the_cursor_that_was_found_is_used<G, E>(
    window: &mut Window<G>,
    mouse_cursor: MouseCursor,
    cursor: u32,
    step: Step<E>,
)
    requires
        call_ensures(
            Window::<G>::mouse_cursor_found::<E>,
            (window, mouse_cursor, cursor),
            step,
        ),
    ensures
        *final(window) == (Window { mouse_cursor, ..*old(window) }),
        cursor == 0 ==> step is Done,
        cursor != 0 ==> {
            &&& step matches Step::Send(sequence)
            &&& sequence.on_failure() == OnFailure::Ignore
            &&& sequence.progress().sent == 0
            &&& sequence.progress().failure is None
            &&& sequence.requests().len() == 2
            &&& sequence.requests()[0] == (Request::ChangeWindowAttributes {
                window: old(window).window_id,
                values: crate::values::cursor_values(cursor),
            })
            &&& sequence.requests()[1] is Flush
        },
{
}

/// A window that has been given a shape has it: asking for it again does nothing,
/// and asking for any other looks that one up.
pub proof fn a_given_shape_stays<G, E>(
    window: &mut Window<G>,
    given: MouseCursor,
    cursor: u32,
    giving: Step<E>,
    after: &Window<G>,
    wanted: MouseCursor,
    step: Step<E>,
)
    requires
        call_ensures(Window::<G>::mouse_cursor_found::<E>, (window, given, cursor), giving),
        *after == *final(window),
        call_ensures(Window::<G>::set_mouse_cursor::<E>, (after, wanted), step),
    ensures
        step is Done <==> wanted == given,
        wanted != given ==> {
            &&& step matches Step::LookUpCursor { cursor: shape, .. }
            &&& shape == wanted
        },
{
}

/// The pointer is moved to the point that was asked for, in the window's own
/// coordinates, from wherever it is; the server is sent the low 16 bits of each
/// coordinate. Then everything is flushed, unless the first request fails.
pub proof fn the_pointer_is_moved_where_asked<G, E>(
    window: &Window<G>,
    physical: PhyPoint,
    sent: Sequence<E>,
)
    requires
        call_ensures(Window::<G>::set_cursor_position::<E>, (window, physical), sent),
    ensures
        sent.on_failure() == OnFailure::Stop,
        sent.progress().sent == 0,
        sent.progress().failure is None,
        sent.requests().len() == 2,
        sent.requests()[0] == (Request::WarpPointer {
            src_window: 0,
            dst_window: window.window_id,
            src_x: 0,
            src_y: 0,
            src_width: 0,
            src_height: 0,
            dst_x: sent.requests()[0]->dst_x,
            dst_y: sent.requests()[0]->dst_y,
        }),
        (sent.requests()[0]->dst_x - physical.x) % 0x1_0000 == 0,
        (sent.requests()[0]->dst_y - physical.y) % 0x1_0000 == 0,
        -0x8000 <= physical.x < 0x8000 ==> sent.requests()[0]->dst_x == physical.x,
        -0x8000 <= physical.y < 0x8000 ==> sent.requests()[0]->dst_y == physical.y,
        sent.requests()[1] is Flush,
{
}

/// The size that is asked of the server has the width and the height that were
/// asked for, each in its own place.
pub proof fn the_size_asked_for_is_sent<G, E>(
    window: &Window<G>,
    size: PhySize,
    sent: Sequence<E>,
)
    requires
        call_ensures(Window::<G>::resize::<E>, (window, size), sent),
    ensures
        sent.on_failure() == OnFailure::Ignore,
        sent.progress().sent == 0,
        sent.progress().failure is None,
        sent.requests().len() == 2,
        sent.requests()[0] == (Request::ConfigureWindow {
            window: window.window_id,
            values: crate::values::size_values(size.width, size.height),
        }),
        sent.requests()[1] is Flush,
{
}

/// Asking a window to close changes nothing else about it.
pub proof fn closing_only_notes_it<G>(window: &mut Window<G>)
    requires
        call_ensures(Window::<G>::close, (window,), ()),
    ensures
        *final(window) == (Window { close_requested: true, ..*old(window) }),
{
}

/// The context that a window lends is the one it was made with.
pub proof fn the_context_is_the_windows_own<G>(
    window_id: u32,
    visual_id: u32,
    root: u32,
    physical_size: PhySize,
    gl_context: Option<G>,
    window: Window<G>,
    lent: Option<&G>,
)
    requires
        call_ensures(
            Window::<G>::new,
            (window_id, visual_id, root, physical_size, gl_context),
            window,
        ),
        call_ensures(Window::<G>::gl_context, (&window,), lent),
    ensures
        lent is Some <==> gl_context is Some,
        lent matches Some(context) ==> *context == gl_context->0,
{
}

} // verus!
