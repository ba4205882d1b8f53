use raw_window_handle::{RawWindowHandle, XlibWindowHandle};
use x11rb::protocol::xproto::{
    AtomEnum, CreateGCAux, CreateWindowAux, EventMask, PropMode, WindowClass,
};
use x11_window::setup::WINDOW_EVENTS;
use x11_window::{
    Action, Event, PhySize, Request, Sequence, Server, Setup, SetupError, SetupOptions, Visual,
    Window, WindowScalePolicy,
};

type TestSetup = Setup<f64, &'static str>;
type TestEvent = Event<f64, &'static str, &'static str, &'static str>;
type TestAction = Action<f64, &'static str, &'static str, &'static str>;

const SERVER: Server =
    Server { root: 300, black_pixel: 1, wm_protocols: 401, wm_delete_window: 402 };

fn begin(parent: Option<u32>, scale: WindowScalePolicy<f64>) -> TestSetup {
    let (setup, action): (TestSetup, TestAction) = Setup::new(SetupOptions {
        parent,
        scale,
        default_scale: 1.0,
        title: "Gr\u{fc}n".to_string(),
    });
    assert!(matches!(action, Action::Connect));
    setup
}

fn visual(fb_config: Option<&'static str>) -> Visual<&'static str> {
    Visual { depth: 24, visual_id: 33, color_map: 55, fb_config }
}

fn requests(action: TestAction) -> Vec<String> {
    let mut sequence: Sequence<&'static str> = match action {
        Action::Perform(sequence) => sequence,
        other => panic!("nothing to send in {:?}", other),
    };
    let mut requests = Vec::new();
    while let Some(request) = sequence.next_request() {
        requests.push(format!("{:?}", request));
        sequence.replied(Ok(()));
    }
    assert_eq!(sequence.outcome(), Some(Ok(())));
    requests
}

fn gc_on(drawable: u32) -> Vec<String> {
    vec![format!(
        "{:?}",
        Request::CreateGc {
            gc: 11,
            drawable,
            values: CreateGCAux::new().foreground(1).graphics_exposures(0),
        }
    )]
}

fn window_in(parent: u32, width: u16, height: u16) -> Vec<String> {
    let requests = vec![
        Request::CreateWindow {
            depth: 24,
            window: 12,
            parent,
            x: 0,
            y: 0,
            width,
            height,
            border_width: 0,
            class: WindowClass::INPUT_OUTPUT.into(),
            visual: 33,
            values: CreateWindowAux::new()
                .event_mask(
                    EventMask::EXPOSURE
                        | EventMask::POINTER_MOTION
                        | EventMask::BUTTON_PRESS
                        | EventMask::BUTTON_RELEASE
                        | EventMask::KEY_PRESS
                        | EventMask::KEY_RELEASE
                        | EventMask::STRUCTURE_NOTIFY
                        | EventMask::ENTER_WINDOW
                        | EventMask::LEAVE_WINDOW,
                )
                .colormap(55)
                .border_pixel(0),
        },
        Request::MapWindow { window: 12 },
        Request::ChangeProperty8 {
            mode: PropMode::REPLACE.into(),
            window: 12,
            property: AtomEnum::WM_NAME.into(),
            item_type: AtomEnum::STRING.into(),
            data: vec![b'G', b'r', 0xc3, 0xbc, b'n'],
        },
        Request::ChangeProperty32 {
            mode: PropMode::REPLACE.into(),
            window: 12,
            property: 401,
            item_type: AtomEnum::ATOM.into(),
            item: 402,
        },
        Request::Flush,
    ];
    requests.iter().map(|request| format!("{:?}", request)).collect()
}

fn xlib(window: u32, visual_id: u32) -> RawWindowHandle {
    let mut handle = XlibWindowHandle::empty();
    handle.window = window.into();
    handle.visual_id = visual_id.into();
    RawWindowHandle::Xlib(handle)
}

/// The steps up to the question which visual to use.
fn up_to_visual(setup: TestSetup, size: PhySize) -> TestSetup {
    let (setup, action) = setup.step(TestEvent::SizeComputed(size));
    assert!(matches!(action, Action::FindVisual));
    setup
}

/// The steps from the handler on.
fn to_the_end(setup: TestSetup, expected_size: PhySize, expected_scale: f64) {
    let (setup, action) = setup.step(TestEvent::HandlerBuilt);
    match action {
        Action::DeliverResized { size, scale } => {
            assert_eq!(size, expected_size);
            assert_eq!(scale, expected_scale);
        }
        other => panic!("no size in {:?}", other),
    }
    let (setup, action) = setup.step(TestEvent::ResizedDelivered);
    match action {
        Action::Announce(handle) => assert_eq!(handle, xlib(12, 33)),
        other => panic!("no handle in {:?}", other),
    }
    let (setup, action) = setup.step(TestEvent::Announced);
    assert!(matches!(action, Action::RunEventLoop));
    let (setup, action) = setup.step(TestEvent::LoopEnded);
    assert!(matches!(action, Action::Finish(Ok(()))));
    assert!(matches!(setup, Setup::Over));
}

#[test]
fn a_child_window_with_its_own_scale() {
    let setup = begin(Some(77), WindowScalePolicy::ScaleFactor(1.5));
    let (setup, action) = setup.step(TestEvent::Connected(SERVER));
    assert!(matches!(action, Action::GenerateId));
    let (setup, action) = setup.step(TestEvent::IdGenerated(11));
    assert_eq!(requests(action), gc_on(77));
    let (setup, action) = setup.step(TestEvent::Performed);
    match action {
        Action::ComputeSize(scale) => assert_eq!(scale, 1.5),
        other => panic!("no scale in {:?}", other),
    }
    let setup = up_to_visual(setup, PhySize { width: 640, height: 480 });
    let (setup, action) = setup.step(TestEvent::VisualFound(visual(None)));
    assert!(matches!(action, Action::GenerateId));
    let (setup, action) = setup.step(TestEvent::IdGenerated(12));
    assert_eq!(requests(action), window_in(77, 640, 480));
    let (setup, action) = setup.step(TestEvent::Performed);
    let expected: Window<&'static str> =
        Window::new(12, 33, 300, PhySize { width: 640, height: 480 }, None);
    match action {
        Action::BuildHandler(window) => {
            assert_eq!(format!("{:?}", window), format!("{:?}", expected))
        }
        other => panic!("no window in {:?}", other),
    }
    to_the_end(setup, PhySize { width: 640, height: 480 }, 1.5);
}

#[test]
fn a_top_level_window_with_the_system_scale() {
    let setup = begin(None, WindowScalePolicy::SystemScaleFactor);
    let (setup, _) = setup.step(TestEvent::Connected(SERVER));
    let (setup, action) = setup.step(TestEvent::IdGenerated(11));
    assert_eq!(requests(action), gc_on(300));
    let (setup, action) = setup.step(TestEvent::Performed);
    assert!(matches!(action, Action::AskScale));
    let (setup, action) = setup.step(TestEvent::ScaleReported(Some(2.0)));
    match action {
        Action::ComputeSize(scale) => assert_eq!(scale, 2.0),
        other => panic!("no scale in {:?}", other),
    }
    let setup = up_to_visual(setup, PhySize { width: 65_537, height: 131_071 });
    let (setup, _) = setup.step(TestEvent::VisualFound(visual(Some("config"))));
    let (setup, action) = setup.step(TestEvent::IdGenerated(12));
    assert_eq!(requests(action), window_in(300, 1, 65_535));
    let (setup, action) = setup.step(TestEvent::Performed);
    match action {
        Action::CreateGlContext { window_id, fb_config } => {
            assert_eq!(window_id, 12);
            assert_eq!(fb_config, "config");
        }
        other => panic!("no context in {:?}", other),
    }
    let (setup, action) = setup.step(TestEvent::GlContextCreated("context"));
    match action {
        Action::BuildHandler(window) => assert_eq!(window.gl_context(), Some(&"context")),
        other => panic!("no window in {:?}", other),
    }
    to_the_end(setup, PhySize { width: 65_537, height: 131_071 }, 2.0);
}

#[test]
fn without_a_system_scale_the_default_is_used() {
    let setup = begin(None, WindowScalePolicy::SystemScaleFactor);
    let (setup, _) = setup.step(TestEvent::Connected(SERVER));
    let (setup, _) = setup.step(TestEvent::IdGenerated(11));
    let (setup, _) = setup.step(TestEvent::Performed);
    let (_, action) = setup.step(TestEvent::ScaleReported(None));
    match action {
        Action::ComputeSize(scale) => assert_eq!(scale, 1.0),
        other => panic!("no scale in {:?}", other),
    }
}

#[test]
fn a_failure_ends_the_opening() {
    for failing in 0..9 {
        let mut setup = begin(None, WindowScalePolicy::SystemScaleFactor);
        let events = vec![
            TestEvent::Connected(SERVER),
            TestEvent::IdGenerated(11),
            TestEvent::Performed,
            TestEvent::ScaleReported(None),
            TestEvent::SizeComputed(PhySize { width: 1, height: 1 }),
            TestEvent::VisualFound(visual(None)),
            TestEvent::IdGenerated(12),
            TestEvent::Performed,
        ];
        for event in events.into_iter().take(failing) {
            let (next, action) = setup.step(event);
            assert!(!matches!(action, Action::Finish(_)));
            setup = next;
        }
        let (setup, action) = setup.step(TestEvent::Failed("broken"));
        assert!(matches!(action, Action::Finish(Err(SetupError::Failed("broken")))));
        let (setup, action) = setup.step(TestEvent::Connected(SERVER));
        assert!(matches!(action, Action::Finish(Err(SetupError::OutOfTurn))));
        assert!(matches!(setup, Setup::Over));
    }
}

#[test]
fn a_reply_out_of_turn_ends_the_opening() {
    let setup = begin(None, WindowScalePolicy::SystemScaleFactor);
    let (_, action) = setup.step(TestEvent::LoopEnded);
    assert!(matches!(action, Action::Finish(Err(SetupError::OutOfTurn))));
}

#[test]
fn a_failed_creation_sends_nothing_more() {
    let setup = begin(None, WindowScalePolicy::ScaleFactor(1.0));
    let (setup, _) = setup.step(TestEvent::Connected(SERVER));
    let (setup, _) = setup.step(TestEvent::IdGenerated(11));
    let (setup, _) = setup.step(TestEvent::Performed);
    let setup = up_to_visual(setup, PhySize { width: 1, height: 1 });
    let (setup, _) = setup.step(TestEvent::VisualFound(visual(None)));
    let (_, action) = setup.step(TestEvent::IdGenerated(12));
    match action {
        Action::Perform(mut sequence) => {
            sequence.replied(Ok(()));
            assert_eq!(sequence.next_request(), Some(&Request::MapWindow { window: 12 }));
            sequence.replied(Err("not mapped"));
            assert_eq!(sequence.next_request(), None);
            assert_eq!(sequence.outcome(), Some(Err("not mapped")));
        }
        other => panic!("nothing to send in {:?}", other),
    }
}

#[test]
fn the_events_asked_for() {
    assert_eq!(WINDOW_EVENTS, 0x2_807f);
}
