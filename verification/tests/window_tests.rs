use blaze_app::repaint::{frame_sleep_ms, RepaintSignal, DEFAULT_FRAME_MS};
use blaze_app::window::{
    primitives_to_draw, resize_applies, PresentMode, INITIAL_HEIGHT, INITIAL_WIDTH,
    MAX_PRIMITIVES_PER_FRAME, MIN_HEIGHT, MIN_WIDTH, WINDOW_TITLE,
};

#[test]
fn window_constants() {
    assert_eq!(WINDOW_TITLE, "BlazePilot");
    assert_eq!((INITIAL_WIDTH, INITIAL_HEIGHT), (1280, 720));
    assert_eq!((MIN_WIDTH, MIN_HEIGHT), (800, 500));
    assert_ne!(PresentMode::Fifo, PresentMode::Immediate);
}

#[test]
fn empty_sides_are_not_resized() {
    assert!(resize_applies(800, 600));
    assert!(!resize_applies(0, 600));
    assert!(!resize_applies(800, 0));
}

#[test]
fn primitives_are_capped() {
    assert_eq!(primitives_to_draw(10), 10);
    assert_eq!(primitives_to_draw(MAX_PRIMITIVES_PER_FRAME), 512);
    assert_eq!(primitives_to_draw(10_000), 512);
}

#[test]
fn repaint_requests_are_taken_once() {
    let s = RepaintSignal::new();
    assert_eq!(s.take(), None);
    s.request_repaint_after(40);
    let other = s.clone();
    assert_eq!(other.take(), Some(40));
    assert_eq!(s.take(), None);
    s.request_repaint_immediate();
    assert_eq!(s.take(), Some(0));
}

#[test]
fn frame_sleep() {
    assert_eq!(frame_sleep_ms(None), DEFAULT_FRAME_MS);
    assert_eq!(frame_sleep_ms(Some(0)), 8);
    assert_eq!(frame_sleep_ms(Some(33)), 33);
}

use blaze_app::window::{window_event_steps, LoopStep, WindowEventKind};

#[test]
fn close_request_exits_unless_consumed() {
    assert_eq!(
        window_event_steps(WindowEventKind::CloseRequested, false, None),
        vec![LoopStep::Exit]
    );
    assert!(window_event_steps(WindowEventKind::CloseRequested, true, None).is_empty());
    assert!(window_event_steps(WindowEventKind::Other, false, None).is_empty());
}

#[test]
fn resize_and_rescale() {
    assert_eq!(
        window_event_steps(WindowEventKind::Resized { width: 640, height: 480 }, false, None),
        vec![LoopStep::Resize { width: 640, height: 480 }, LoopStep::RequestRedraw]
    );
    assert_eq!(
        window_event_steps(WindowEventKind::ScaleFactorChanged, true, None),
        vec![LoopStep::Rescale]
    );
}

#[test]
fn redraw_draws_and_pauses() {
    assert_eq!(
        window_event_steps(WindowEventKind::RedrawRequested, false, Some(100)),
        vec![LoopStep::DrawFrame, LoopStep::RequestRedraw, LoopStep::Sleep(100)]
    );
    assert_eq!(
        window_event_steps(WindowEventKind::RedrawRequested, false, Some(0)),
        vec![LoopStep::DrawFrame, LoopStep::RequestRedraw, LoopStep::Sleep(8)]
    );
    assert_eq!(
        window_event_steps(WindowEventKind::RedrawRequested, false, None),
        vec![LoopStep::DrawFrame, LoopStep::RequestRedraw, LoopStep::Sleep(8)]
    );
}
