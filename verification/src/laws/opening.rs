//! What the steps of an opening do, in whatever order things happen. Each law
//! holds of every opening, also of one that fails on the way.

use vstd::prelude::*;

use crate::request::Request;
use crate::setup::{
    Action, Event, NewWindow, Plan, Server, Setup, SetupError, SetupOptions, WindowScalePolicy,
};

verus! {

/// What an opening holds of what it began with, at any stage: the server that it
/// is connected to, the parent and the title.
spec fn holds_on<S, F>(setup: Setup<S, F>, options: SetupOptions<S>, server: Server) -> bool {
    let parent = match options.parent {
        Some(wanted) => wanted,
        None => server.root,
    };
    let plan = Plan { parent, server, title: options.title };
    match setup {
        Setup::Connection { .. } => false,
        Setup::GcId { plan: held, scale, default_scale } => held == plan && scale == options.scale
            && default_scale == options.default_scale,
        Setup::GcCreation { plan: held, scale, default_scale } => held == plan && scale
            == options.scale && default_scale == options.default_scale,
        Setup::SystemScale { plan: held, default_scale } => held == plan && default_scale
            == options.default_scale && options.scale is SystemScaleFactor,
        Setup::Size { plan: held, .. } => held == plan,
        Setup::VisualConfig { plan: held, .. } => held == plan,
        Setup::WindowId { plan: held, .. } => held == plan,
        _ => true,
    }
}

/// Once it is connected, an opening holds on to what it began with.
proof fn setup_holds_on<S: Copy, F, G, E>(
    options: SetupOptions<S>,
    server: Server,
    states: Seq<Setup<S, F>>,
    events: Seq<Event<S, F, G, E>>,
    actions: Seq<Action<S, F, G, E>>,
    i: int,
)
    requires
        crate::laws::is_run(states, events, actions),
        states[0] == (Setup::<S, F>::Connection { options }),
        events[0] == Event::<S, F, G, E>::Connected(server),
        0 < i < states.len(),
    ensures
        holds_on(states[i], options, server),
    decreases i,
{
    assert(states[i - 1].steps(events[i - 1], states[i], actions[i - 1]));
    if i > 1 {
        setup_holds_on(options, server, states, events, actions, i - 1);
    }
}

/// A window is opened inside the window that the caller asked for, or on the root
/// window if none was asked for. Whatever visual the server has, of whatever depth,
/// and however the opening ends: every window that is ever created has that
/// parent, and every graphics context is created on it.
pub proof fn a_window_opens_inside_its_parent<S: Copy, F, G, E>(
    options: SetupOptions<S>,
    server: Server,
    states: Seq<Setup<S, F>>,
    events: Seq<Event<S, F, G, E>>,
    actions: Seq<Action<S, F, G, E>>,
    i: int,
    j: int,
)
    requires
        crate::laws::is_run(states, events, actions),
        states[0] == (Setup::<S, F>::Connection { options }),
        events[0] == Event::<S, F, G, E>::Connected(server),
        0 <= i < actions.len(),
        actions[i] is Perform,
        0 <= j < actions[i]->Perform_0.requests().len(),
    ensures
        actions[i]->Perform_0.requests()[j] matches Request::CreateWindow { parent, .. } ==> {
            &&& options.parent matches Some(wanted) ==> parent == wanted
            &&& options.parent is None ==> parent == server.root
        },
        actions[i]->Perform_0.requests()[j] matches Request::CreateGc { drawable, .. } ==> {
            &&& options.parent matches Some(wanted) ==> drawable == wanted
            &&& options.parent is None ==> drawable == server.root
        },
{
    assert(states[i].steps(events[i], states[i + 1], actions[i]));
    if i > 0 {
        setup_holds_on(options, server, states, events, actions, i);
    }
}

/// A window is created with the size that was computed and the visual that was
/// found, under the id that was generated for it, whatever any of these are.
pub proof fn a_window_is_created_as_found<S: Copy, F, G, E>(
    setup: Setup<S, F>,
    id: u32,
    next: Setup<S, F>,
    action: Action<S, F, G, E>,
)
    requires
        setup is WindowId,
        call_ensures(
            Setup::<S, F>::step::<G, E>,
            (setup, Event::<S, F, G, E>::IdGenerated(id)),
            (next, action),
        ),
    ensures
        ({
            let (plan, scale, size, visual) = match setup {
                Setup::WindowId { plan, scale, size, visual } => (plan, scale, size, visual),
                _ => arbitrary(),
            };
            &&& next == (Setup::<S, F>::WindowCreation {
                window: NewWindow {
                    window_id: id,
                    visual_id: visual.visual_id,
                    root: plan.server.root,
                    size,
                    scale,
                },
                fb_config: visual.fb_config,
            })
            &&& action matches Action::Perform(creation)
            &&& creation.requests().len() == 5
            &&& creation.requests()[0] matches Request::CreateWindow {
                depth,
                window,
                parent,
                width,
                height,
                visual: visual_id,
                values,
                ..
            }
            &&& depth == visual.depth
            &&& window == id
            &&& parent == plan.parent
            &&& (size.width - width) % 0x1_0000 == 0
            &&& (size.height - height) % 0x1_0000 == 0
            &&& visual_id == visual.visual_id
            &&& values == crate::values::window_values(0x2_807f, visual.color_map, 0)
        }),
{
    crate::laws::the_events_asked_for();
}

/// A failure that is reported ends the opening then and there, and is what the
/// opening ends with, at whatever stage it comes.
pub proof fn a_reported_failure_is_the_result<S: Copy, F, G, E>(
    setup: Setup<S, F>,
    error: E,
    next: Setup<S, F>,
    action: Action<S, F, G, E>,
)
    requires
        call_ensures(
            Setup::<S, F>::step::<G, E>,
            (setup, Event::<S, F, G, E>::Failed(error)),
            (next, action),
        ),
    ensures
        next is Over,
        action == Action::<S, F, G, E>::Finish(Err(SetupError::Failed(error))),
{
}

/// Each stage goes on with one kind of event alone. Anything else ends the opening
/// with an error, and so does anything that happens once it is over.
pub proof fn nothing_happens_out_of_turn<S: Copy, F, G, E>(
    setup: Setup<S, F>,
    event: Event<S, F, G, E>,
    next: Setup<S, F>,
    action: Action<S, F, G, E>,
)
    requires
        call_ensures(Setup::<S, F>::step::<G, E>, (setup, event), (next, action)),
        !(event is Failed),
        match setup {
            Setup::Connection { .. } => !(event is Connected),
            Setup::GcId { .. } => !(event is IdGenerated),
            Setup::GcCreation { .. } => !(event is Performed),
            Setup::SystemScale { .. } => !(event is ScaleReported),
            Setup::Size { .. } => !(event is SizeComputed),
            Setup::VisualConfig { .. } => !(event is VisualFound),
            Setup::WindowId { .. } => !(event is IdGenerated),
            Setup::WindowCreation { .. } => !(event is Performed),
            Setup::GlContext { .. } => !(event is GlContextCreated),
            Setup::Handler { .. } => !(event is HandlerBuilt),
            Setup::ResizedDelivery { .. } => !(event is ResizedDelivered),
            Setup::Announcement => !(event is Announced),
            Setup::EventLoop => !(event is LoopEnded),
            Setup::Over => true,
        },
    ensures
        next is Over,
        action == Action::<S, F, G, E>::Finish(Err(SetupError::OutOfTurn)),
{
}

/// An opening ends well only when the event loop has run to its end.
pub proof fn only_the_loop_ends_well<S: Copy, F, G, E>(
    setup: Setup<S, F>,
    event: Event<S, F, G, E>,
    next: Setup<S, F>,
    action: Action<S, F, G, E>,
)
    requires
        call_ensures(Setup::<S, F>::step::<G, E>, (setup, event), (next, action)),
    ensures
        action == Action::<S, F, G, E>::Finish(Ok(())) <==> setup is EventLoop && event
            is LoopEnded,
        action is Finish <==> next is Over,
{
}

/// The scale factor that the size is computed with is the one that was asked for,
/// where one was; else the system's, where it has one, and the default otherwise.
pub proof fn the_scale_factor_is_the_one_asked_for<S: Copy, F, G, E>(
    options: SetupOptions<S>,
    server: Server,
    states: Seq<Setup<S, F>>,
    events: Seq<Event<S, F, G, E>>,
    actions: Seq<Action<S, F, G, E>>,
    i: int,
)
    requires
        crate::laws::is_run(states, events, actions),
        states[0] == (Setup::<S, F>::Connection { options }),
        events[0] == Event::<S, F, G, E>::Connected(server),
        0 <= i < actions.len(),
        actions[i] is ComputeSize,
    ensures
        options.scale matches WindowScalePolicy::ScaleFactor(wanted) ==> actions[i]->ComputeSize_0
            == wanted,
        options.scale is SystemScaleFactor ==> {
            &&& events[i] matches Event::ScaleReported(reported)
            &&& reported matches Some(system) ==> actions[i]->ComputeSize_0 == system
            &&& reported is None ==> actions[i]->ComputeSize_0 == options.default_scale
        },
{
    assert(states[i].steps(events[i], states[i + 1], actions[i]));
    if i > 0 {
        setup_holds_on(options, server, states, events, actions, i);
    }
}

} // verus!
