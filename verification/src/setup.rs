//! Opening a window, step by step: which request or question comes next, given
//! how the one before was answered.

use raw_window_handle::RawWindowHandle;
use vstd::prelude::*;
use vstd::slice::slice_to_vec;

use crate::geometry::{to_u16, PhySize};
use crate::raw_handle::new_xlib_handle;
use crate::request::{
    Request, ATOM, BUTTON_PRESS, BUTTON_RELEASE, ENTER_WINDOW, EXPOSURE, INPUT_OUTPUT, KEY_PRESS,
    KEY_RELEASE, LEAVE_WINDOW, POINTER_MOTION, REPLACE, STRING, STRUCTURE_NOTIFY, WM_NAME,
};
use crate::sequence::{OnFailure, Sequence};
use crate::values::{new_gc_values, new_window_values};
use crate::window::Window;

verus! {

/// The events that a window asks the server to report.
pub const WINDOW_EVENTS: u32 = EXPOSURE | POINTER_MOTION | BUTTON_PRESS | BUTTON_RELEASE | KEY_PRESS
    | KEY_RELEASE | STRUCTURE_NOTIFY | ENTER_WINDOW | LEAVE_WINDOW;

/// Where the scale factor between logical and physical pixels comes from. `S`
/// is the type that scale factors have.
#[derive(Clone, Copy, Debug)]
pub enum WindowScalePolicy<S> {
    /// The windowing system's own scale factor.
    SystemScaleFactor,
    /// This scale factor.
    ScaleFactor(S),
}

/// What the caller asks for in a new window.
#[derive(Debug)]
pub struct SetupOptions<S> {
    /// The window to be opened inside of, or `None` for a top-level window.
    pub parent: Option<u32>,
    pub scale: WindowScalePolicy<S>,
    /// The scale factor to use where the system's is asked for and there is
    /// none.
    pub default_scale: S,
    pub title: String,
}

/// What a connection to the server tells of it.
#[derive(Clone, Copy, Debug)]
pub struct Server {
    /// The root window of the screen.
    pub root: u32,
    /// The pixel value that is black on the screen.
    pub black_pixel: u32,
    /// The atom `WM_PROTOCOLS`.
    pub wm_protocols: u32,
    /// The atom `WM_DELETE_WINDOW`.
    pub wm_delete_window: u32,
}

/// The visual to open the window with. `F` is the type of an OpenGL frame
/// buffer configuration.
#[derive(Debug)]
pub struct Visual<F> {
    pub depth: u8,
    pub visual_id: u32,
    pub color_map: u32,
    /// The configuration to make an OpenGL context with, if one is wanted.
    pub fb_config: Option<F>,
}

/// What is settled once the connection is there.
#[derive(Debug)]
pub struct Plan {
    /// The window to open inside of.
    pub parent: u32,
    pub server: Server,
    pub title: String,
}

/// The window that is being created.
#[derive(Debug)]
pub struct NewWindow<S> {
    pub window_id: u32,
    pub visual_id: u32,
    /// The root window of the screen.
    pub root: u32,
    pub size: PhySize,
    /// The scale factor that the size was computed with.
    pub scale: S,
}

/// Why a window was not opened. `E` is what a failure is reported as.
#[derive(Debug, PartialEq)]
pub enum SetupError<E> {
    /// What was asked for could not be done.
    Failed(E),
    /// Something else than what was being waited for happened.
    OutOfTurn,
}

/// How far the opening of a window is: each variant names what is being waited
/// for.
#[derive(Debug)]
pub enum Setup<S, F> {
    Connection { options: SetupOptions<S> },
    GcId { plan: Plan, scale: WindowScalePolicy<S>, default_scale: S },
    GcCreation { plan: Plan, scale: WindowScalePolicy<S>, default_scale: S },
    SystemScale { plan: Plan, default_scale: S },
    Size { plan: Plan, scale: S },
    VisualConfig { plan: Plan, scale: S, size: PhySize },
    WindowId { plan: Plan, scale: S, size: PhySize, visual: Visual<F> },
    WindowCreation { window: NewWindow<S>, fb_config: Option<F> },
    GlContext { window: NewWindow<S> },
    Handler { window: NewWindow<S> },
    ResizedDelivery { window: NewWindow<S> },
    Announcement,
    EventLoop,
    /// Nothing any more.
    Over,
}

/// What has happened since the last step.
#[derive(Debug)]
pub enum Event<S, F, G, E> {
    /// The connection to the server is there.
    Connected(Server),
    /// The server has given a fresh resource id.
    IdGenerated(u32),
    /// All requests of the sequence have been sent.
    Performed,
    /// The system's scale factor is this, or there is none.
    ScaleReported(Option<S>),
    /// The window's size in physical pixels is this.
    SizeComputed(PhySize),
    /// This is the best visual that the server has.
    VisualFound(Visual<F>),
    /// An OpenGL context has been made.
    GlContextCreated(G),
    /// The window's event handler has been built.
    HandlerBuilt,
    /// The handler has been told of the window's size.
    ResizedDelivered,
    /// The window's handle has been passed on, or nobody was there to take it.
    Announced,
    /// The event loop has run to its end.
    LoopEnded,
    /// What was asked for could not be done.
    Failed(E),
}

/// What is to be done next.
#[derive(Debug)]
pub enum Action<S, F, G, E> {
    /// Connect to the server.
    Connect,
    /// Ask the server for a fresh resource id.
    GenerateId,
    /// Send the requests.
    Perform(Sequence<E>),
    /// Find out the system's scale factor.
    AskScale,
    /// Scale the logical size that was asked for by this factor.
    ComputeSize(S),
    /// Find the best visual that the server has.
    FindVisual,
    /// Make an OpenGL context for the window.
    CreateGlContext { window_id: u32, fb_config: F },
    /// Build the event handler for this window.
    BuildHandler(Window<G>),
    /// Tell the handler of the window's size and scale factor.
    DeliverResized { size: PhySize, scale: S },
    /// Pass the window's handle on to whoever opened the window.
    Announce(RawWindowHandle),
    /// Run the event loop until the window closes.
    RunEventLoop,
    /// Stop, with this result.
    Finish(Result<(), SetupError<E>>),
}

/// Whether `requests` creates and shows a window as planned, with the given id,
/// size and visual: the window is created at the upper left corner of its
/// parent, without a border, and mapped; it gets its title and says that it
/// understands being asked to close; and everything is flushed. The protocol has
/// 16 bits for each side of the window.
pub open spec fn creates_window<F>(
    requests: Seq<Request>,
    plan: Plan,
    size: PhySize,
    visual: Visual<F>,
    window: u32,
) -> bool {
    &&& requests.len() == 5
    &&& requests[0] == (Request::CreateWindow {
        depth: visual.depth,
        window,
        parent: plan.parent,
        x: 0,
        y: 0,
        width: crate::geometry::wrap_u16(size.width as int) as u16,
        height: crate::geometry::wrap_u16(size.height as int) as u16,
        border_width: 0,
        class: INPUT_OUTPUT,
        visual: visual.visual_id,
        values: crate::values::window_values(WINDOW_EVENTS, visual.color_map, 0),
    })
    &&& requests[1] == (Request::MapWindow { window })
    &&& requests[2] matches Request::ChangeProperty8 {
        mode,
        window: titled,
        property,
        item_type,
        data,
    } && mode == REPLACE && titled == window && property == WM_NAME && item_type == STRING && data@
        == vstd::utf8::encode_utf8(plan.title@)
    &&& requests[3] == (Request::ChangeProperty32 {
        mode: REPLACE,
        window,
        property: plan.server.wm_protocols,
        item_type: ATOM,
        item: plan.server.wm_delete_window,
    })
    &&& requests[4] == Request::Flush
}

/// Makes the requests that create and show a window.
fn window_requests<F>(plan: &Plan, size: PhySize, visual: &Visual<F>, window: u32) -> (r: Vec<
    Request,
>)
    ensures
        creates_window(r@, *plan, size, *visual, window),
{
    let mut requests = Vec::new();
    requests.push(
        Request::CreateWindow {
            depth: visual.depth,
            window,
            parent: plan.parent,
            x: 0,
            y: 0,
            width: to_u16(size.width),
            height: to_u16(size.height),
            border_width: 0,
            class: INPUT_OUTPUT,
            visual: visual.visual_id,
            values: new_window_values(WINDOW_EVENTS, visual.color_map, 0),
        },
    );
    requests.push(Request::MapWindow { window });
    requests.push(
        Request::ChangeProperty8 {
            mode: REPLACE,
            window,
            property: WM_NAME,
            item_type: STRING,
            data: slice_to_vec(plan.title.as_str().as_bytes()),
        },
    );
    requests.push(
        Request::ChangeProperty32 {
            mode: REPLACE,
            window,
            property: plan.server.wm_protocols,
            item_type: ATOM,
            item: plan.server.wm_delete_window,
        },
    );
    requests.push(Request::Flush);
    requests
}

/// The window that a new window is opened inside of: the one that was asked for,
/// or the root window.
pub open spec fn parent_or_root(parent: Option<u32>, root: u32) -> u32 {
    match parent {
        Some(parent) => parent,
        None => root,
    }
}

/// The scale factor to use where the system's is asked for.
pub open spec fn scale_or_default<S>(reported: Option<S>, default_scale: S) -> S {
    match reported {
        Some(scale) => scale,
        None => default_scale,
    }
}

/// The window that has just been created, with its OpenGL context.
pub open spec fn opened<S, G>(window: NewWindow<S>, gl_context: Option<G>) -> Window<G> {
    Window::opened(window.window_id, window.visual_id, window.root, window.size, gl_context)
}

/// Why the opening ends with `event`, which was not being waited for: for what
/// it reports, if it reports a failure.
pub open spec fn failure<S, F, G, E>(event: Event<S, F, G, E>) -> SetupError<E> {
    match event {
        Event::Failed(error) => SetupError::Failed(error),
        _ => SetupError::OutOfTurn,
    }
}

/// Whether `action` is to send exactly `requests`, all of them or none behind
/// the first that fails.
pub open spec fn performs<S, F, G, E>(action: Action<S, F, G, E>, requests: Seq<Request>) -> bool {
    action matches Action::Perform(sequence) && sequence.starts(requests, OnFailure::Stop)
}

impl<S> NewWindow<S> {
    /// The window as it is now, with its OpenGL context.
    fn open<G>(&self, gl_context: Option<G>) -> (r: Window<G>)
        ensures
            r == opened(*self, gl_context),
    {
        Window::new(self.window_id, self.visual_id, self.root, self.size, gl_context)
    }
}

impl<S: Copy, F> Setup<S, F> {
    /// Whether `event` is what is being waited for.
    pub open spec fn awaits<G, E>(self, event: Event<S, F, G, E>) -> bool {
        match self {
            Setup::Connection { .. } => event is Connected,
            Setup::GcId { .. } => event is IdGenerated,
            Setup::GcCreation { .. } => event is Performed,
            Setup::SystemScale { .. } => event is ScaleReported,
            Setup::Size { .. } => event is SizeComputed,
            Setup::VisualConfig { .. } => event is VisualFound,
            Setup::WindowId { .. } => event is IdGenerated,
            Setup::WindowCreation { .. } => event is Performed,
            Setup::GlContext { .. } => event is GlContextCreated,
            Setup::Handler { .. } => event is HandlerBuilt,
            Setup::ResizedDelivery { .. } => event is ResizedDelivered,
            Setup::Announcement => event is Announced,
            Setup::EventLoop => event is LoopEnded,
            Setup::Over => false,
        }
    }

    /// Whether `event`, which is being waited for, leads on to `next` with
    /// `action` to be done.
    pub open spec fn goes_on<G, E>(
        self,
        event: Event<S, F, G, E>,
        next: Setup<S, F>,
        action: Action<S, F, G, E>,
    ) -> bool {
        match (self, event) {
            (Setup::Connection { options }, Event::Connected(server)) => {
                &&& next == (Setup::<S, F>::GcId {
                    plan: Plan {
                        parent: parent_or_root(options.parent, server.root),
                        server,
                        title: options.title,
                    },
                    scale: options.scale,
                    default_scale: options.default_scale,
                })
                &&& action is GenerateId
            },
            (Setup::GcId { plan, scale, default_scale }, Event::IdGenerated(gc)) => {
                &&& next == (Setup::<S, F>::GcCreation { plan, scale, default_scale })
                &&& performs(
                    action,
                    seq![
                        Request::CreateGc {
                            gc,
                            drawable: plan.parent,
                            values: crate::values::gc_values(plan.server.black_pixel, 0),
                        },
                    ],
                )
            },
            (Setup::GcCreation { plan, scale, default_scale }, Event::Performed) => match scale {
                WindowScalePolicy::SystemScaleFactor => {
                    &&& next == (Setup::<S, F>::SystemScale { plan, default_scale })
                    &&& action is AskScale
                },
                WindowScalePolicy::ScaleFactor(factor) => {
                    &&& next == (Setup::<S, F>::Size { plan, scale: factor })
                    &&& action == Action::<S, F, G, E>::ComputeSize(factor)
                },
            },
            (Setup::SystemScale { plan, default_scale }, Event::ScaleReported(reported)) => {
                let factor = scale_or_default(reported, default_scale);
                &&& next == (Setup::<S, F>::Size { plan, scale: factor })
                &&& action == Action::<S, F, G, E>::ComputeSize(factor)
            },
            (Setup::Size { plan, scale }, Event::SizeComputed(size)) => {
                &&& next == (Setup::<S, F>::VisualConfig { plan, scale, size })
                &&& action is FindVisual
            },
            (Setup::VisualConfig { plan, scale, size }, Event::VisualFound(visual)) => {
                &&& next == (Setup::<S, F>::WindowId { plan, scale, size, visual })
                &&& action is GenerateId
            },
            (Setup::WindowId { plan, scale, size, visual }, Event::IdGenerated(window_id)) => {
                &&& next == (Setup::<S, F>::WindowCreation {
                    window: NewWindow {
                        window_id,
                        visual_id: visual.visual_id,
                        root: plan.server.root,
                        size,
                        scale,
                    },
                    fb_config: visual.fb_config,
                })
                &&& action matches Action::Perform(sequence)
                &&& creates_window(sequence.requests(), plan, size, visual, window_id)
                &&& sequence.starts(sequence.requests(), OnFailure::Stop)
            },
            (Setup::WindowCreation { window, fb_config }, Event::Performed) => match fb_config {
                Some(fb_config) => {
                    &&& next == (Setup::<S, F>::GlContext { window })
                    &&& action == (Action::<S, F, G, E>::CreateGlContext {
                        window_id: window.window_id,
                        fb_config,
                    })
                },
                None => {
                    &&& next == (Setup::<S, F>::Handler { window })
                    &&& action == Action::<S, F, G, E>::BuildHandler(opened(window, None))
                },
            },
            (Setup::GlContext { window }, Event::GlContextCreated(context)) => {
                &&& next == (Setup::<S, F>::Handler { window })
                &&& action == Action::<S, F, G, E>::BuildHandler(opened(window, Some(context)))
            },
            (Setup::Handler { window }, Event::HandlerBuilt) => {
                &&& next == (Setup::<S, F>::ResizedDelivery { window })
                &&& action == (Action::<S, F, G, E>::DeliverResized {
                    size: window.size,
                    scale: window.scale,
                })
            },
            (Setup::ResizedDelivery { window }, Event::ResizedDelivered) => {
                &&& next is Announcement
                &&& action == Action::<S, F, G, E>::Announce(
                    crate::raw_handle::xlib_window_handle(window.window_id, window.visual_id),
                )
                &&& crate::raw_handle::handle_window(action->Announce_0)
                    == crate::raw_handle::ParentWindow::Xlib(window.window_id as u64)
                &&& crate::raw_handle::handle_window(action->Announce_0).spec_window_id() == Some(
                    window.window_id,
                )
            },
            (Setup::Announcement, Event::Announced) => next is EventLoop && action is RunEventLoop,
            (Setup::EventLoop, Event::LoopEnded) => {
                next is Over && action == Action::<S, F, G, E>::Finish(Ok(()))
            },
            _ => false,
        }
    }

    /// Whether `event` leads to `next` with `action` to be done: on, if it is
    /// what is being waited for, and to the end, in failure, if not.
    pub open spec fn steps<G, E>(
        self,
        event: Event<S, F, G, E>,
        next: Setup<S, F>,
        action: Action<S, F, G, E>,
    ) -> bool {
        if self.awaits(event) {
            self.goes_on(event, next, action)
        } else {
            next is Over && action == Action::<S, F, G, E>::Finish(Err(failure(event)))
        }
    }

    /// The beginning: the first thing to do is to connect to the server.
    pub fn new<G, E>(options: SetupOptions<S>) -> (r: (Setup<S, F>, Action<S, F, G, E>))
        ensures
            r.0 == (Setup::<S, F>::Connection { options }),
            r.1 is Connect,
    {
        (Setup::Connection { options }, Action::Connect)
    }

    /// Takes what has happened, and says what to do next. Anything other than
    /// what was being waited for ends the opening in failure, and a failure that is
    /// reported is what it ends with.
    pub fn step<G, E>(self, event: Event<S, F, G, E>) -> (r: (Setup<S, F>, Action<S, F, G, E>))
        ensures
            self.steps(event, r.0, r.1),
    {
        match (self, event) {
            (Setup::Connection { options }, Event::Connected(server)) => {
                let parent = options.parent.unwrap_or(server.root);
                let plan = Plan { parent, server, title: options.title };
                (
                    Setup::GcId {
                        plan,
                        scale: options.scale,
                        default_scale: options.default_scale,
                    },
                    Action::GenerateId,
                )
            },
            (Setup::GcId { plan, scale, default_scale }, Event::IdGenerated(gc)) => {
                let mut requests = Vec::new();
                requests.push(
                    Request::CreateGc {
                        gc,
                        drawable: plan.parent,
                        values: new_gc_values(plan.server.black_pixel, 0),
                    },
                );
                assert(requests@ =~= seq![requests@[0]]);
                (
                    Setup::GcCreation { plan, scale, default_scale },
                    Action::Perform(Sequence::new(requests, OnFailure::Stop)),
                )
            },
            (Setup::GcCreation { plan, scale, default_scale }, Event::Performed) => match scale {
                WindowScalePolicy::SystemScaleFactor => {
                    (Setup::SystemScale { plan, default_scale }, Action::AskScale)
                },
                WindowScalePolicy::ScaleFactor(factor) => {
                    (Setup::Size { plan, scale: factor }, Action::ComputeSize(factor))
                },
            },
            (Setup::SystemScale { plan, default_scale }, Event::ScaleReported(reported)) => {
                let factor = match reported {
                    Some(factor) => factor,
                    None => default_scale,
                };
                (Setup::Size { plan, scale: factor }, Action::ComputeSize(factor))
            },
            (Setup::Size { plan, scale }, Event::SizeComputed(size)) => {
                (Setup::VisualConfig { plan, scale, size }, Action::FindVisual)
            },
            (Setup::VisualConfig { plan, scale, size }, Event::VisualFound(visual)) => {
                (Setup::WindowId { plan, scale, size, visual }, Action::GenerateId)
            },
            (Setup::WindowId { plan, scale, size, visual }, Event::IdGenerated(window_id)) => {
                let requests = window_requests(&plan, size, &visual, window_id);
                let window = NewWindow {
                    window_id,
                    visual_id: visual.visual_id,
                    root: plan.server.root,
                    size,
                    scale,
                };
                (
                    Setup::WindowCreation { window, fb_config: visual.fb_config },
                    Action::Perform(Sequence::new(requests, OnFailure::Stop)),
                )
            },
            (Setup::WindowCreation { window, fb_config }, Event::Performed) => match fb_config {
                Some(fb_config) => {
                    let window_id = window.window_id;
                    (Setup::GlContext { window }, Action::CreateGlContext { window_id, fb_config })
                },
                None => {
                    let built = window.open(None);
                    (Setup::Handler { window }, Action::BuildHandler(built))
                },
            },
            (Setup::GlContext { window }, Event::GlContextCreated(context)) => {
                let built = window.open(Some(context));
                (Setup::Handler { window }, Action::BuildHandler(built))
            },
            (Setup::Handler { window }, Event::HandlerBuilt) => {
                let (size, scale) = (window.size, window.scale);
                (Setup::ResizedDelivery { window }, Action::DeliverResized { size, scale })
            },
            (Setup::ResizedDelivery { window }, Event::ResizedDelivered) => {
                let handle = new_xlib_handle(window.window_id, window.visual_id);
                (Setup::Announcement, Action::Announce(handle))
            },
            (Setup::Announcement, Event::Announced) => (Setup::EventLoop, Action::RunEventLoop),
            (Setup::EventLoop, Event::LoopEnded) => (Setup::Over, Action::Finish(Ok(()))),
            (_, Event::Failed(error)) => {
                (Setup::Over, Action::Finish(Err(SetupError::Failed(error))))
            },
            _ => (Setup::Over, Action::Finish(Err(SetupError::OutOfTurn))),
        }
    }
}

} // verus!
