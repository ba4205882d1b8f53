//! What holds across several operations on a window, or over a whole opening.

pub mod ends;
pub mod opening;
pub mod window;

use std::sync::atomic::AtomicBool;
use vstd::prelude::*;

use crate::cursor::MouseCursor;
use crate::geometry::{PhyPoint, PhySize};
use crate::request::Request;
use crate::sequence::OnFailure;
use crate::setup::{
    Action, Event, Server, Setup, SetupOptions, Visual, WindowScalePolicy, WINDOW_EVENTS,
};
use crate::window::Window;

verus! {

/// A call that can change a window's state, with its arguments.
pub enum Operation {
    EnableUnboundedMouseMovement { enable: bool, restore_position: bool },
    CursorIdsGenerated {
        pixmap_id: Option<u32>,
        cursor_id: Option<u32>,
    },
    PointerQueried { pointer: Option<PhyPoint> },
    BoundedCursorFound,
    SetCursorVisible { visible: bool },
    VisibleCursorFound,
    MouseCursorFound { mouse_cursor: MouseCursor },
    Close,
}

/// The window after one call.
pub open spec fn after<G>(window: Window<G>, operation: Operation) -> Window<G> {
    match operation {
        Operation::EnableUnboundedMouseMovement { enable, restore_position } => {
            window.after_toggle(enable, restore_position)
        },
        Operation::CursorIdsGenerated { pixmap_id, cursor_id } => {
            window.after_ids(pixmap_id, cursor_id)
        },
        Operation::PointerQueried { pointer } => window.unbounded(pointer),
        Operation::BoundedCursorFound => window.bounded(),
        Operation::SetCursorVisible { visible } => window.after_visibility(visible),
        Operation::VisibleCursorFound => Window { cursor_visible: true, ..window },
        Operation::MouseCursorFound { mouse_cursor } => Window { mouse_cursor, ..window },
        Operation::Close => Window { close_requested: true, ..window },
    }
}

/// Whether the call has its place here: ids are generated only for a window
/// that asked for them, which has no invisible cursor yet.
pub open spec fn in_order<G>(window: Window<G>, operation: Operation) -> bool {
    operation is CursorIdsGenerated ==> window.invisible_cursor is None
}

/// The window after several calls.
pub open spec fn after_all<G>(window: Window<G>, operations: Seq<Operation>) -> Window<G>
    decreases operations.len(),
{
    if operations.len() == 0 {
        window
    } else {
        after(after_all(window, operations.drop_last()), operations.last())
    }
}

/// Whether each of several calls has its place.
pub open spec fn all_in_order<G>(window: Window<G>, operations: Seq<Operation>) -> bool
    decreases operations.len(),
{
    operations.len() == 0 || {
        &&& all_in_order(window, operations.drop_last())
        &&& in_order(after_all(window, operations.drop_last()), operations.last())
    }
}

/// No run of calls breaks what holds of a window, or changes what it is: its
/// ids, its screen, its size or its OpenGL context. Asking it to close is never
/// taken back.
pub proof fn operations_keep_the_window<G>(window: Window<G>, operations: Seq<Operation>)
    ensures
        window.well_formed() ==> after_all(window, operations).well_formed(),
        after_all(window, operations).window_id == window.window_id,
        after_all(window, operations).visual_id == window.visual_id,
        after_all(window, operations).root == window.root,
        after_all(window, operations).physical_size == window.physical_size,
        after_all(window, operations).gl_context == window.gl_context,
        window.close_requested ==> after_all(window, operations).close_requested,
    decreases operations.len(),
{
    if operations.len() > 0 {
        operations_keep_the_window(window, operations.drop_last());
    }
}

/// The invisible cursor is made once: whatever calls follow in order, the
/// window keeps the one it has.
pub proof fn invisible_cursor_is_kept<G>(window: Window<G>, operations: Seq<Operation>)
    requires
        window.invisible_cursor is Some,
        all_in_order(window, operations),
    ensures
        after_all(window, operations).invisible_cursor == window.invisible_cursor,
    decreases operations.len(),
{
    if operations.len() > 0 {
        invisible_cursor_is_kept(window, operations.drop_last());
    }
}

/// The window once unbounded mode has been enabled, whichever way: with the
/// invisible cursor it has, or with the ids that were generated for one.
pub open spec fn after_enabling<G>(
    window: Window<G>,
    restore_position: bool,
    pixmap_id: Option<u32>,
    cursor_id: Option<u32>,
    pointer: Option<PhyPoint>,
) -> Window<G> {
    let asked = after(
        window,
        Operation::EnableUnboundedMouseMovement { enable: true, restore_position },
    );
    let equipped = if window.invisible_cursor is None {
        after(asked, Operation::CursorIdsGenerated { pixmap_id, cursor_id })
    } else {
        asked
    };
    after(equipped, Operation::PointerQueried { pointer })
}

/// The window once unbounded mode has been disabled.
pub open spec fn after_disabling<G>(window: Window<G>, restore_position: bool) -> Window<G> {
    after(
        after(
            window,
            Operation::EnableUnboundedMouseMovement { enable: false, restore_position },
        ),
        Operation::BoundedCursorFound,
    )
}

/// Enabling unbounded mode, in whichever way, turns it on and hides the cursor;
/// the movement gathered starts from nothing, and the origin is where the
/// pointer was, or the middle of the window if that is not known.
pub proof fn enabling_turns_it_on<G>(
    window: Window<G>,
    restore_position: bool,
    pixmap_id: Option<u32>,
    cursor_id: Option<u32>,
    pointer: Option<PhyPoint>,
)
    requires
        !window.unbounded_mouse_movement,
    ensures
        ({
            let enabled = after_enabling(window, restore_position, pixmap_id, cursor_id, pointer);
            &&& enabled.unbounded_mouse_movement
            &&& !enabled.cursor_visible
            &&& enabled.expecting_warp
            &&& enabled.unbounded_delta == (0i32, 0i32)
            &&& pointer matches Some(position) ==> enabled.unbounded_origin == Some(position)
            &&& pointer is None ==> enabled.unbounded_origin == Some(
                window.physical_size.spec_center(),
            )
            &&& enabled.restore_position_on_disable == restore_position
            &&& enabled.mouse_cursor == window.mouse_cursor
        }),
{
}

/// Disabling unbounded mode undoes enabling it. The window is as it was, but
/// that its cursor is shown, it knows its invisible cursor and what was asked
/// about the position, and a movement of the pointer is still to be reported.
pub proof fn disabling_undoes_enabling<G>(
    window: Window<G>,
    restore_position: bool,
    pixmap_id: Option<u32>,
    cursor_id: Option<u32>,
    pointer: Option<PhyPoint>,
    ignored: bool,
)
    requires
        window.well_formed(),
        !window.unbounded_mouse_movement,
    ensures
        ({
            let enabled = after_enabling(window, restore_position, pixmap_id, cursor_id, pointer);
            after_disabling(enabled, ignored) == (Window {
                cursor_visible: true,
                invisible_cursor: enabled.invisible_cursor,
                restore_position_on_disable: restore_position,
                expecting_warp: true,
                ..window
            })
        }),
{
}

/// If the position is to be restored, the pointer is moved back to where it was
/// when the mode was enabled, whatever calls came in between, as long as none of
/// them ended the mode or began it anew. If not, it is left where it is.
pub proof fn pointer_returns_to_the_origin<G>(
    window: Window<G>,
    restore_position: bool,
    pixmap_id: Option<u32>,
    cursor_id: Option<u32>,
    pointer: Option<PhyPoint>,
    operations: Seq<Operation>,
)
    requires
        !window.unbounded_mouse_movement,
        forall|i: int|
            0 <= i < operations.len() ==> !(#[trigger] operations[i] is PointerQueried
                || operations[i] is BoundedCursorFound),
    ensures
        ({
            let enabled = after_enabling(window, restore_position, pixmap_id, cursor_id, pointer);
            let later = after_all(enabled, operations);
            &&& later.unbounded_mouse_movement
            &&& restore_position ==> later.return_requests() == seq![
                crate::request::warp_to(window.window_id, window.origin(pointer)),
            ]
            &&& !restore_position ==> later.return_requests() == Seq::<Request>::empty()
        }),
    decreases operations.len(),
{
    if operations.len() > 0 {
        let earlier = operations.drop_last();
        pointer_returns_to_the_origin(
            window,
            restore_position,
            pixmap_id,
            cursor_id,
            pointer,
            earlier,
        );
        let enabled = after_enabling(window, restore_position, pixmap_id, cursor_id, pointer);
        let before = after_all(enabled, earlier);
        assert(after_all(enabled, operations).return_requests() == before.return_requests());
    }
}

/// A flag in which something else can be read than it was made with is written
/// at some moment.
pub proof fn a_changed_flag_was_written(flag: AtomicBool, value: bool)
    requires
        crate::flag::can_hold(flag, value),
        value != crate::flag::initial_value(flag),
    ensures
        crate::flag::ever_stored(flag, value),
{
}

/// Showing the cursor undoes hiding it.
pub proof fn showing_undoes_hiding<G>(window: Window<G>)
    requires
        window.cursor_visible,
    ensures
        after(
            after(
                after(window, Operation::SetCursorVisible { visible: false }),
                Operation::SetCursorVisible { visible: true },
            ),
            Operation::VisibleCursorFound,
        ) == window,
{
}

/// Of several shapes given to the cursor, the last one stays, and giving the
/// cursor the shape it has changes nothing.
pub proof fn last_shape_stays<G>(window: Window<G>, first: MouseCursor, last: MouseCursor)
    ensures
        after(
            after(window, Operation::MouseCursorFound { mouse_cursor: first }),
            Operation::MouseCursorFound { mouse_cursor: last },
        ) == after(window, Operation::MouseCursorFound { mouse_cursor: last }),
        after(window, Operation::MouseCursorFound { mouse_cursor: window.mouse_cursor }) == window,
{
}

/// Whether `states`, `events` and `actions` are the record of an opening: each
/// event led from one state to the next, with the action to be done.
pub open spec fn is_run<S: Copy, F, G, E>(
    states: Seq<Setup<S, F>>,
    events: Seq<Event<S, F, G, E>>,
    actions: Seq<Action<S, F, G, E>>,
) -> bool {
    &&& states.len() == events.len() + 1
    &&& actions.len() == events.len()
    &&& forall|i: int|
        #![trigger events[i]]
        0 <= i < events.len() ==> states[i].steps(events[i], states[i + 1], actions[i])
}

/// The most steps that are left.
pub open spec fn steps_left<S, F>(setup: Setup<S, F>) -> int {
    match setup {
        Setup::Connection { .. } => 13,
        Setup::GcId { .. } => 12,
        Setup::GcCreation { .. } => 11,
        Setup::SystemScale { .. } => 10,
        Setup::Size { .. } => 9,
        Setup::VisualConfig { .. } => 8,
        Setup::WindowId { .. } => 7,
        Setup::WindowCreation { .. } => 6,
        Setup::GlContext { .. } => 5,
        Setup::Handler { .. } => 4,
        Setup::ResizedDelivery { .. } => 3,
        Setup::Announcement => 2,
        Setup::EventLoop => 1,
        Setup::Over => 0,
    }
}

/// An opening ends: whatever happens, it is over after as many steps as there
/// are things to wait for.
pub proof fn setup_ends<S: Copy, F, G, E>(
    states: Seq<Setup<S, F>>,
    events: Seq<Event<S, F, G, E>>,
    actions: Seq<Action<S, F, G, E>>,
    i: int,
)
    requires
        is_run(states, events, actions),
        0 <= i < states.len(),
    ensures
        steps_left(states[i]) == 0 || steps_left(states[i]) + i <= steps_left(states[0]),
        steps_left(states[0]) <= i ==> states[i] is Over,
    decreases i,
{
    if i > 0 {
        setup_ends(states, events, actions, i - 1);
        assert(states[i - 1].steps(events[i - 1], states[i], actions[i - 1]));
    }
}

/// What has failed stays failed: once something happens that was not being
/// waited for, the opening is over, and every action from then on is to stop with
/// an error. The first such error is the failure that was reported, if one was.
pub proof fn failure_is_final<S: Copy, F, G, E>(
    states: Seq<Setup<S, F>>,
    events: Seq<Event<S, F, G, E>>,
    actions: Seq<Action<S, F, G, E>>,
    failed: int,
    later: int,
)
    requires
        is_run(states, events, actions),
        0 <= failed <= later < events.len(),
        !states[failed].awaits(events[failed]),
    ensures
        states[later + 1] is Over,
        actions[failed] == Action::<S, F, G, E>::Finish(
            Err(crate::setup::failure(events[failed])),
        ),
        actions[later] matches Action::Finish(result) && result is Err,
    decreases later,
{
    assert(states[later].steps(events[later], states[later + 1], actions[later]));
    if failed < later {
        failure_is_final(states, events, actions, failed, later - 1);
    }
}

/// An opening ends well only if everything that was asked for was done: before
/// the action to stop without an error, each event was the one being waited for.
pub proof fn success_takes_every_step<S: Copy, F, G, E>(
    states: Seq<Setup<S, F>>,
    events: Seq<Event<S, F, G, E>>,
    actions: Seq<Action<S, F, G, E>>,
    end: int,
    i: int,
)
    requires
        is_run(states, events, actions),
        0 <= i <= end < events.len(),
        actions[end] == Action::<S, F, G, E>::Finish(Ok(())),
    ensures
        states[i].awaits(events[i]),
{
    if !states[i].awaits(events[i]) {
        failure_is_final(states, events, actions, i, end);
    }
}

/// What happens while a window is opened and nothing fails. The system's scale
/// factor is asked for only if it is wanted, and an OpenGL context is made only
/// if the visual calls for one.
pub open spec fn good_events<S: Copy, F, G, E>(
    scale: WindowScalePolicy<S>,
    server: Server,
    gc: u32,
    reported: Option<S>,
    size: PhySize,
    visual: Visual<F>,
    window_id: u32,
    context: G,
) -> Seq<Event<S, F, G, E>> {
    seq![Event::Connected(server), Event::IdGenerated(gc), Event::Performed] + (
    if scale is SystemScaleFactor {
        seq![Event::ScaleReported(reported)]
    } else {
        seq![]
    }) + seq![
        Event::SizeComputed(size),
        Event::VisualFound(visual),
        Event::IdGenerated(window_id),
        Event::Performed,
    ] + (if visual.fb_config is Some {
        seq![Event::GlContextCreated(context)]
    } else {
        seq![]
    }) + seq![
        Event::HandlerBuilt,
        Event::ResizedDelivered,
        Event::Announced,
        Event::LoopEnded,
    ]
}

/// A window asks to be told of keys, of buttons, of the pointer's movements and of
/// its coming and going, of parts that need drawing, and of changes of the window
/// itself: the bits that the protocol has for those, and no others.
pub proof fn the_events_asked_for()
    ensures
        WINDOW_EVENTS == 0x2_807f,
{
    assert(0x8000u32 | 0x40u32 | 0x4u32 | 0x8u32 | 0x1u32 | 0x2u32 | 0x2_0000u32 | 0x10u32 | 0x20u32
        == 0x2_807fu32) by (bit_vector);
}

/// The scale factor that a policy comes to.
pub open spec fn chosen_scale<S>(
    scale: WindowScalePolicy<S>,
    reported: Option<S>,
    default_scale: S,
) -> S {
    match scale {
        WindowScalePolicy::SystemScaleFactor => crate::setup::scale_or_default(
            reported,
            default_scale,
        ),
        WindowScalePolicy::ScaleFactor(factor) => factor,
    }
}

/// A whole opening in which nothing fails. A graphics context is created on the
/// parent, or on the root window if there is none; the size is computed with the
/// scale factor that the policy calls for; the window is created inside the
/// parent and shown; the event handler is built for it, and told that size and
/// that scale factor before the window's own handle is announced; and the event
/// loop runs to its end.
pub proof fn good_opening<S: Copy, F, G, E>(
    options: SetupOptions<S>,
    server: Server,
    gc: u32,
    reported: Option<S>,
    size: PhySize,
    visual: Visual<F>,
    window_id: u32,
    context: G,
    states: Seq<Setup<S, F>>,
    actions: Seq<Action<S, F, G, E>>,
)
    requires
        states.len() > 0,
        states[0] == (Setup::<S, F>::Connection { options }),
        is_run(
            states,
            good_events(
                options.scale,
                server,
                gc,
                reported,
                size,
                visual,
                window_id,
                context,
            ),
            actions,
        ),
    ensures
        ({
            let parent = match options.parent {
                Some(wanted) => wanted,
                None => server.root,
            };
            let factor = match (options.scale, reported) {
                (WindowScalePolicy::ScaleFactor(wanted), _) => wanted,
                (WindowScalePolicy::SystemScaleFactor, Some(system)) => system,
                (WindowScalePolicy::SystemScaleFactor, None) => options.default_scale,
            };
            let asked: int = if options.scale is SystemScaleFactor {
                1
            } else {
                0
            };
            let drawn: int = if visual.fb_config is Some {
                1
            } else {
                0
            };
            let gl_context = if visual.fb_config is Some {
                Some(context)
            } else {
                None
            };
            &&& factor == chosen_scale(options.scale, reported, options.default_scale)
            &&& actions[0] is GenerateId
            &&& actions[1] matches Action::Perform(gc_creation)
            &&& gc_creation.on_failure() == OnFailure::Stop
            &&& gc_creation.progress().sent == 0
            &&& gc_creation.progress().failure is None
            &&& gc_creation.requests().len() == 1
            &&& gc_creation.requests()[0] == (Request::CreateGc {
                gc,
                drawable: parent,
                values: crate::values::gc_values(server.black_pixel, 0),
            })
            &&& asked == 1 ==> actions[2] is AskScale
            &&& actions[2 + asked] == Action::<S, F, G, E>::ComputeSize(factor)
            &&& actions[3 + asked] is FindVisual
            &&& actions[4 + asked] is GenerateId
            &&& actions[5 + asked] matches Action::Perform(creation)
            &&& creation.on_failure() == OnFailure::Stop
            &&& creation.progress().sent == 0
            &&& creation.progress().failure is None
            &&& creation.requests().len() == 5
            &&& creation.requests()[0] matches Request::CreateWindow {
                depth,
                window: created,
                parent: inside,
                x,
                y,
                width,
                height,
                border_width,
                class,
                visual: shown_with,
                values,
            }
            &&& inside == parent
            &&& created == window_id
            &&& depth == visual.depth
            &&& shown_with == visual.visual_id
            &&& x == 0 && y == 0 && border_width == 0
            &&& (size.width - width) % 0x1_0000 == 0
            &&& (size.height - height) % 0x1_0000 == 0
            &&& class == 1
            &&& values == crate::values::window_values(0x2_807f, visual.color_map, 0)
            &&& creation.requests()[1] == (Request::MapWindow { window: window_id })
            &&& creation.requests()[2] matches Request::ChangeProperty8 {
                mode,
                window: titled,
                property,
                item_type,
                data,
            }
            &&& mode == 0 && titled == window_id && property == 39 && item_type == 31
            &&& data@ == vstd::utf8::encode_utf8(options.title@)
            &&& creation.requests()[3] == (Request::ChangeProperty32 {
                mode: 0,
                window: window_id,
                property: server.wm_protocols,
                item_type: 4,
                item: server.wm_delete_window,
            })
            &&& creation.requests()[4] is Flush
            &&& visual.fb_config matches Some(fb_config) ==> actions[6 + asked] == (Action::<
                S,
                F,
                G,
                E,
            >::CreateGlContext { window_id, fb_config })
            &&& actions[6 + asked + drawn] == Action::<S, F, G, E>::BuildHandler(
                Window {
                    gl_context,
                    window_id,
                    visual_id: visual.visual_id,
                    root: server.root,
                    physical_size: size,
                    mouse_cursor: MouseCursor::Default,
                    close_requested: false,
                    unbounded_mouse_movement: false,
                    unbounded_origin: None,
                    restore_position_on_disable: false,
                    expecting_warp: false,
                    unbounded_delta: (0i32, 0i32),
                    cursor_visible: true,
                    invisible_cursor: None,
                },
            )
            &&& actions[7 + asked + drawn] == (Action::<S, F, G, E>::DeliverResized {
                size,
                scale: factor,
            })
            &&& actions[8 + asked + drawn] matches Action::Announce(handle) && handle
                == crate::raw_handle::xlib_window_handle(window_id, visual.visual_id)
                && crate::raw_handle::handle_window(handle)
                == crate::raw_handle::ParentWindow::Xlib(window_id as u64)
            &&& actions[9 + asked + drawn] is RunEventLoop
            &&& actions[10 + asked + drawn] == Action::<S, F, G, E>::Finish(Ok(()))
            &&& actions.len() == 11 + asked + drawn
            &&& states.last() is Over
        }),
{
    let events = good_events(
        options.scale,
        server,
        gc,
        reported,
        size,
        visual,
        window_id,
        context,
    );
    the_events_asked_for();
    assert(states[0].steps(events[0], states[1], actions[0]));
    assert(states[1].steps(events[1], states[2], actions[1]));
    assert(states[2].steps(events[2], states[3], actions[2]));
    assert(states[3].steps(events[3], states[4], actions[3]));
    assert(states[4].steps(events[4], states[5], actions[4]));
    assert(states[5].steps(events[5], states[6], actions[5]));
    assert(states[6].steps(events[6], states[7], actions[6]));
    assert(states[7].steps(events[7], states[8], actions[7]));
    assert(states[8].steps(events[8], states[9], actions[8]));
    assert(states[9].steps(events[9], states[10], actions[9]));
    assert(states[10].steps(events[10], states[11], actions[10]));
    if events.len() > 11 {
        assert(states[11].steps(events[11], states[12], actions[11]));
    }
    if events.len() > 12 {
        assert(states[12].steps(events[12], states[13], actions[12]));
    }
}

} // verus!
