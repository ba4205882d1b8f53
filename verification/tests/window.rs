use raw_window_handle::{RawWindowHandle, XlibWindowHandle};
use x11rb::protocol::xproto::{ChangeWindowAttributesAux, ConfigureWindowAux};
use x11_window::raw_handle::parent_window_id;
use x11_window::window::pointer_position;
use x11_window::{MouseCursor, PhyPoint, PhySize, Request, Sequence, Step, Window};

const WINDOW: u32 = 70;
const VISUAL: u32 = 33;
const ROOT: u32 = 5;

fn open(width: u32, height: u32) -> Window<&'static str> {
    Window::new(WINDOW, VISUAL, ROOT, PhySize { width, height }, None)
}

/// Sends everything, with every request succeeding.
fn sent(mut sequence: Sequence<()>) -> Vec<String> {
    let mut requests = Vec::new();
    while let Some(request) = sequence.next_request() {
        requests.push(format!("{:?}", request));
        sequence.replied(Ok(()));
    }
    assert_eq!(sequence.outcome(), Some(Ok(())));
    requests
}

fn sent_step(step: Step<()>) -> Vec<String> {
    match step {
        Step::Send(sequence) => sent(sequence),
        other => panic!("nothing to send in {:?}", other),
    }
}

fn shown(requests: Vec<Request>) -> Vec<String> {
    requests.iter().map(|request| format!("{:?}", request)).collect()
}

fn cursor(cursor: u32) -> Request {
    Request::ChangeWindowAttributes {
        window: WINDOW,
        values: ChangeWindowAttributesAux::new().cursor(cursor),
    }
}

fn warp(x: i16, y: i16) -> Request {
    Request::WarpPointer {
        src_window: x11rb::NONE,
        dst_window: WINDOW,
        src_x: 0,
        src_y: 0,
        src_width: 0,
        src_height: 0,
        dst_x: x,
        dst_y: y,
    }
}

fn invisible(pixmap: u32, cursor: u32) -> Vec<Request> {
    vec![
        Request::CreatePixmap { depth: 1, pixmap, drawable: ROOT, width: 1, height: 1 },
        Request::CreateCursor {
            cursor,
            source: pixmap,
            mask: pixmap,
            fore_red: 0,
            fore_green: 0,
            fore_blue: 0,
            back_red: 0,
            back_green: 0,
            back_blue: 0,
            x: 0,
            y: 0,
        },
        Request::FreePixmap { pixmap },
    ]
}

/// What is sent before the pointer is looked for.
fn sent_before_query(step: Step<()>) -> Vec<String> {
    match step {
        Step::QueryPointer { first } => sent(first),
        other => panic!("no pointer to look for in {:?}", other),
    }
}

/// Enables unbounded mode, with the ids and the pointer that the server gives.
fn enable(
    window: &mut Window<&'static str>,
    restore_position: bool,
    ids: (Option<u32>, Option<u32>),
    pointer: Option<PhyPoint>,
) -> Vec<String> {
    let step: Step<()> = window.enable_unbounded_mouse_movement(true, restore_position);
    let mut requests = match step {
        Step::GenerateCursorIds => sent_before_query(window.cursor_ids_generated(ids.0, ids.1)),
        other => sent_before_query(other),
    };
    requests.extend(sent_step(window.pointer_queried(pointer)));
    requests
}

/// Begins disabling unbounded mode.
fn disable(window: &mut Window<&'static str>, restore_position: bool) -> (Vec<String>, MouseCursor) {
    looked_up(window.enable_unbounded_mouse_movement(false, restore_position))
}

/// The looked-up shape, once what comes before has been sent.
fn looked_up(step: Step<()>) -> (Vec<String>, MouseCursor) {
    match step {
        Step::LookUpCursor { first, cursor } => (sent(first), cursor),
        other => panic!("no cursor to look up in {:?}", other),
    }
}

#[test]
fn a_new_window_is_plain() {
    let window = open(640, 480);
    assert_eq!(window.mouse_cursor, MouseCursor::Default);
    assert_eq!(window.mouse_cursor, MouseCursor::default());
    assert!(!window.close_requested);
    assert!(!window.is_unbounded_mouse_movement_enabled());
    assert_eq!(window.unbounded_origin, None);
    assert!(!window.restore_position_on_disable);
    assert!(!window.expecting_warp);
    assert_eq!(window.unbounded_delta, (0, 0));
    assert!(window.cursor_visible);
    assert_eq!(window.invisible_cursor, None);
    assert_eq!(window.gl_context(), None);
}

#[test]
fn enabling_makes_the_invisible_cursor() {
    let mut window = open(801, 600);
    let step: Step<()> = window.enable_unbounded_mouse_movement(true, true);
    assert!(matches!(step, Step::GenerateCursorIds));
    assert!(!window.is_unbounded_mouse_movement_enabled());
    let step = window.cursor_ids_generated(Some(20), Some(21));
    assert_eq!(sent_before_query(step), shown(invisible(20, 21)));
    assert!(!window.is_unbounded_mouse_movement_enabled());
    assert_eq!(window.invisible_cursor, Some(21));
    let step = window.pointer_queried(Some(PhyPoint::new(17, -3)));
    assert_eq!(sent_step(step), shown(vec![cursor(21), warp(400, 300), Request::Flush]));
    assert!(window.is_unbounded_mouse_movement_enabled());
    assert_eq!(window.unbounded_origin, Some(PhyPoint::new(17, -3)));
    assert!(window.restore_position_on_disable);
    assert!(window.expecting_warp);
    assert!(!window.cursor_visible);
}

#[test]
fn a_lost_pointer_counts_as_in_the_middle() {
    let mut window = open(801, 600);
    enable(&mut window, true, (Some(20), Some(21)), None);
    assert_eq!(window.unbounded_origin, Some(PhyPoint::new(400, 300)));
    assert_eq!(disable(&mut window, true).0, shown(vec![warp(400, 300)]));
}

#[test]
fn the_pointer_is_found_on_its_own_screen() {
    assert_eq!(pointer_position(true, -5, 32_767), Some(PhyPoint::new(-5, 32_767)));
    assert_eq!(pointer_position(false, 0, 0), None);
}

#[test]
fn enabling_without_ids_leaves_the_cursor() {
    for ids in vec![
        (None, Some(21)),
        (Some(20), None),
        (None, None),
        (Some(0), Some(21)),
        (Some(20), Some(0)),
    ] {
        let mut window = open(100, 50);
        let requests = enable(&mut window, false, ids, Some(PhyPoint::new(1, 2)));
        assert_eq!(requests, shown(vec![warp(50, 25), Request::Flush]));
        assert!(window.is_unbounded_mouse_movement_enabled());
        assert!(!window.cursor_visible);
        assert_eq!(window.invisible_cursor, None);
        assert_eq!(window.unbounded_origin, Some(PhyPoint::new(1, 2)));
    }
}

#[test]
fn enabling_again_uses_the_cursor_it_has() {
    let mut window = open(10, 10);
    enable(&mut window, false, (Some(20), Some(21)), None);
    disable(&mut window, false);
    sent(window.bounded_cursor_found(None));
    let step = window.enable_unbounded_mouse_movement(true, true);
    assert!(sent_before_query(step).is_empty());
    let step = window.pointer_queried(Some(PhyPoint::new(3, 4)));
    assert_eq!(sent_step(step), shown(vec![cursor(21), warp(5, 5), Request::Flush]));
    assert_eq!(window.invisible_cursor, Some(21));
    assert!(window.restore_position_on_disable);
    assert_eq!(window.unbounded_origin, Some(PhyPoint::new(3, 4)));
}

#[test]
fn a_mode_that_is_on_stays_on() {
    let mut window = open(10, 10);
    enable(&mut window, true, (Some(20), Some(21)), None);
    window.unbounded_delta = (3, -4);
    let before = format!("{:?}", window);
    let step: Step<()> = window.enable_unbounded_mouse_movement(true, false);
    assert!(matches!(step, Step::Done));
    assert_eq!(format!("{:?}", window), before);
}

#[test]
fn a_mode_that_is_off_stays_off() {
    let mut window = open(10, 10);
    let before = format!("{:?}", window);
    let step: Step<()> = window.enable_unbounded_mouse_movement(false, true);
    assert!(matches!(step, Step::Done));
    assert_eq!(format!("{:?}", window), before);
}

#[test]
fn disabling_undoes_enabling() {
    let mut window = open(800, 600);
    window.mouse_cursor = MouseCursor::Hand;
    enable(&mut window, true, (Some(20), Some(21)), Some(PhyPoint::new(62, 40_000)));
    window.unbounded_delta = (12, 7);
    window.expecting_warp = false;
    window.close();
    let (first, shape) = disable(&mut window, false);
    assert_eq!(first, shown(vec![warp(62, -25_536)]));
    assert_eq!(shape, MouseCursor::Hand);
    assert!(window.expecting_warp);
    let sequence = window.bounded_cursor_found(Some(44));
    assert_eq!(sent(sequence), shown(vec![cursor(44), Request::Flush]));
    assert!(!window.is_unbounded_mouse_movement_enabled());
    assert_eq!(window.unbounded_origin, None);
    assert_eq!(window.unbounded_delta, (0, 0));
    assert!(window.cursor_visible);
    assert_eq!(window.mouse_cursor, MouseCursor::Hand);
    assert_eq!(window.invisible_cursor, Some(21));
    assert!(window.close_requested);
}

#[test]
fn disabling_can_leave_the_pointer() {
    let mut window = open(800, 600);
    enable(&mut window, false, (Some(20), Some(21)), Some(PhyPoint::new(62, 40)));
    window.expecting_warp = false;
    let (first, shape) = disable(&mut window, true);
    assert!(first.is_empty());
    assert_eq!(shape, MouseCursor::Default);
    assert!(!window.expecting_warp);
    assert_eq!(sent(window.bounded_cursor_found(None)), shown(vec![Request::Flush]));
}

#[test]
fn a_restored_cursor_may_be_zero() {
    let mut window = open(800, 600);
    enable(&mut window, false, (None, None), None);
    disable(&mut window, false);
    assert_eq!(
        sent(window.bounded_cursor_found(Some(0))),
        shown(vec![cursor(0), Request::Flush])
    );
}

#[test]
fn the_middle_of_a_huge_window_wraps() {
    let mut window = open(70_001, 131_080);
    let requests = enable(&mut window, false, (None, None), None);
    assert_eq!(window.unbounded_origin, Some(PhyPoint::new(35_000, 65_540)));
    assert_eq!(requests, shown(vec![warp(-30_536, 4), Request::Flush]));
    let size = PhySize { width: 0xffff_ffff, height: 0x8000_0000 };
    assert_eq!(size.center(), PhyPoint::new(0, -0x4000_0000));
    let size = PhySize { width: 0xffff_fffd, height: 0x7fff_ffff };
    assert_eq!(size.center(), PhyPoint::new(-1, 0x3fff_ffff));
}

#[test]
fn the_mouse_cursor_is_changed_once() {
    let mut window = open(10, 10);
    let (first, shape) = looked_up(window.set_mouse_cursor(MouseCursor::Text));
    assert!(first.is_empty());
    assert_eq!(shape, MouseCursor::Text);
    assert_eq!(window.mouse_cursor, MouseCursor::Default);
    let step = window.mouse_cursor_found(shape, 91);
    assert_eq!(sent_step(step), shown(vec![cursor(91), Request::Flush]));
    assert_eq!(window.mouse_cursor, MouseCursor::Text);
    let step: Step<()> = window.set_mouse_cursor(MouseCursor::Text);
    assert!(matches!(step, Step::Done));
}

#[test]
fn a_shape_without_a_cursor_is_only_noted() {
    let mut window = open(10, 10);
    let step: Step<()> = window.mouse_cursor_found(MouseCursor::Help, 0);
    assert!(matches!(step, Step::Done));
    assert_eq!(window.mouse_cursor, MouseCursor::Help);
}

#[test]
fn the_cursor_is_hidden_and_shown() {
    let mut window = open(10, 10);
    window.mouse_cursor = MouseCursor::Crosshair;
    let step: Step<()> = window.set_cursor_visible(true);
    assert!(matches!(step, Step::Done));
    assert_eq!(sent_step(window.set_cursor_visible(false)), shown(vec![Request::Flush]));
    assert!(!window.cursor_visible);
    let step: Step<()> = window.set_cursor_visible(false);
    assert!(matches!(step, Step::Done));
    let (first, shape) = looked_up(window.set_cursor_visible(true));
    assert!(first.is_empty());
    assert_eq!(shape, MouseCursor::Crosshair);
    assert!(!window.cursor_visible);
    assert_eq!(
        sent(window.visible_cursor_found(Some(8))),
        shown(vec![cursor(8), Request::Flush])
    );
    assert!(window.cursor_visible);
    window.invisible_cursor = Some(21);
    assert_eq!(
        sent_step(window.set_cursor_visible(false)),
        shown(vec![cursor(21), Request::Flush])
    );
    assert_eq!(sent(window.visible_cursor_found(None)), shown(vec![Request::Flush]));
}

#[test]
fn the_pointer_is_moved() {
    let window = open(10, 10);
    let sequence = window.set_cursor_position(PhyPoint::new(-3, 40_000));
    assert_eq!(sent(sequence), shown(vec![warp(-3, -25_536), Request::Flush]));
}

#[test]
fn an_unfinished_move_has_no_outcome() {
    let window = open(10, 10);
    let mut sequence: Sequence<&str> = window.set_cursor_position(PhyPoint::new(1, 2));
    assert_eq!(sequence.next_request(), Some(&warp(1, 2)));
    sequence.replied(Ok(()));
    assert_eq!(sequence.next_request(), Some(&Request::Flush));
    assert_eq!(sequence.outcome(), None);
}

#[test]
fn a_failed_move_is_not_flushed() {
    let window = open(10, 10);
    let mut sequence = window.set_cursor_position(PhyPoint::new(1, 2));
    sequence.replied(Err("no warp"));
    assert_eq!(sequence.next_request(), None);
    sequence.replied(Err("late"));
    assert_eq!(sequence.outcome(), Some(Err("no warp")));
}

#[test]
fn a_failed_flush_fails_the_move() {
    let window = open(10, 10);
    let mut sequence = window.set_cursor_position(PhyPoint::new(1, 2));
    sequence.replied(Ok(()));
    assert_eq!(sequence.next_request(), Some(&Request::Flush));
    sequence.replied(Err("no flush"));
    assert_eq!(sequence.outcome(), Some(Err("no flush")));
}

#[test]
fn resizing_only_asks() {
    let window = open(10, 10);
    let mut sequence = window.resize(PhySize { width: 300, height: 200 });
    assert_eq!(
        sequence.next_request(),
        Some(&Request::ConfigureWindow {
            window: WINDOW,
            values: ConfigureWindowAux::new().width(300).height(200),
        })
    );
    sequence.replied(Err("ignored"));
    assert_eq!(sequence.next_request(), Some(&Request::Flush));
    sequence.replied(Err("ignored"));
    assert_eq!(sequence.next_request(), None);
    sequence.replied(Err("ignored"));
    assert_eq!(sequence.outcome(), Some(Ok(())));
    assert_eq!(window.physical_size, PhySize { width: 10, height: 10 });
}

#[test]
fn closing_is_noted() {
    let mut window = open(10, 10);
    window.close();
    assert!(window.close_requested);
    window.close();
    assert!(window.close_requested);
}

#[test]
fn the_gl_context_is_lent() {
    let window = Window::new(1, 2, 3, PhySize { width: 1, height: 1 }, Some("context"));
    assert_eq!(window.gl_context(), Some(&"context"));
}

#[test]
fn the_handle_names_the_window() {
    let window = open(10, 10);
    let mut handle = XlibWindowHandle::empty();
    handle.window = WINDOW.into();
    handle.visual_id = VISUAL.into();
    assert_eq!(window.raw_window_handle(), RawWindowHandle::Xlib(handle));
    assert_eq!(parent_window_id(window.raw_window_handle()), Some(WINDOW));
}
