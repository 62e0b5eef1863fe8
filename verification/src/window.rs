use vstd::prelude::*;
use crate::repaint::{frame_sleep_ms, DEFAULT_FRAME_MS};

verus! {

/// The title of the main window.
pub const WINDOW_TITLE: &'static str = "BlazePilot";
/// The first size of the main window, in logical pixels.
pub const INITIAL_WIDTH: u32 = 1280;
pub const INITIAL_HEIGHT: u32 = 720;
/// The smallest size of the main window, in logical pixels.
pub const MIN_WIDTH: u32 = 800;
pub const MIN_HEIGHT: u32 = 500;

/// The most primitives drawn in one frame.
pub const MAX_PRIMITIVES_PER_FRAME: usize = 512;

/// The main window of the explorer (created by the interface).
pub struct AppWindow;

/// How frames are presented.
#[derive(Clone, Copy, Debug, PartialEq, Eq, Structural)]
pub enum PresentMode {
    Immediate,
    Fifo,
    Auto,
}

/// Whether a resize to `width` × `height` reconfigures the surface: a
/// surface with an empty side is left as it is.
pub fn resize_applies(width: u32, height: u32) -> (b: bool)
    ensures
        b == (width != 0 && height != 0),
{
    !(width == 0 || height == 0)
}

/// How many of `len` primitives a frame draws.
pub fn primitives_to_draw(len: usize) -> (n: usize)
    ensures
        n == if len < MAX_PRIMITIVES_PER_FRAME { len } else { MAX_PRIMITIVES_PER_FRAME },
{
    if len < MAX_PRIMITIVES_PER_FRAME {
        len
    } else {
        MAX_PRIMITIVES_PER_FRAME
    }
}

/// The window events the loop reacts to.
#[derive(Clone, Copy, Debug, PartialEq, Eq, Structural)]
pub enum WindowEventKind {
    CloseRequested,
    /// The scale factor changed; the window keeps its size in pixels.
    ScaleFactorChanged,
    Resized { width: u32, height: u32 },
    RedrawRequested,
    Other,
}

/// What the window loop does, in order, for an event.
#[derive(Clone, Copy, Debug, PartialEq, Eq, Structural)]
pub enum LoopStep {
    /// Leave the event loop.
    Exit,
    /// Reconfigure the surface to the window's size at the new scale, and
    /// use that scale for the interface.
    Rescale,
    /// Reconfigure the surface to this size (skipped by the renderer when a
    /// side is empty).
    Resize { width: u32, height: u32 },
    /// Run the interface, then draw its shapes.
    DrawFrame,
    RequestRedraw,
    /// Pause this many milliseconds before the next frame.
    Sleep(u64),
}

/// The steps of an event: a close request the interface did not consume
/// exits; a scale change rescales; a resize resizes and asks for a frame;
/// a redraw draws, asks for the next frame and pauses as the repaint signal
/// asked (`taken` is what `RepaintSignal::take` returned).
pub open spec fn event_steps(event: WindowEventKind, consumed: bool, taken: Option<u64>) -> Seq<LoopStep> {
    let exit: Seq<LoopStep> = if !consumed && event == WindowEventKind::CloseRequested {
        seq![LoopStep::Exit]
    } else {
        seq![]
    };
    exit + match event {
        WindowEventKind::ScaleFactorChanged => seq![LoopStep::Rescale],
        WindowEventKind::Resized { width, height } => seq![
            LoopStep::Resize { width, height },
            LoopStep::RequestRedraw,
        ],
        WindowEventKind::RedrawRequested => seq![
            LoopStep::DrawFrame,
            LoopStep::RequestRedraw,
            LoopStep::Sleep(
                match taken {
                    Some(d) => if d == 0 { DEFAULT_FRAME_MS } else { d },
                    None => DEFAULT_FRAME_MS,
                },
            ),
        ],
        _ => seq![],
    }
}

/// Decides what the window loop does for one event.
pub fn window_event_steps(event: WindowEventKind, consumed: bool, taken: Option<u64>) -> (r: Vec<LoopStep>)
    ensures
        r@ == event_steps(event, consumed, taken),
{
    let mut r: Vec<LoopStep> = Vec::new();
    if !consumed && event == WindowEventKind::CloseRequested {
        r.push(LoopStep::Exit);
    }
    match event {
        WindowEventKind::ScaleFactorChanged => {
            r.push(LoopStep::Rescale);
        },
        WindowEventKind::Resized { width, height } => {
            r.push(LoopStep::Resize { width, height });
            r.push(LoopStep::RequestRedraw);
        },
        WindowEventKind::RedrawRequested => {
            r.push(LoopStep::DrawFrame);
            r.push(LoopStep::RequestRedraw);
            r.push(LoopStep::Sleep(frame_sleep_ms(taken)));
        },
        _ => {},
    }
    assert(r@ =~= event_steps(event, consumed, taken));
    r
}

/// Only an unconsumed close request leaves the loop; a resize asks for a
/// frame after resizing to the new size; a redraw draws, asks for the next
/// frame and then pauses as asked, the default pause when the signal asked
/// for none or for no time at all; other events do nothing.
pub proof fn law_window_events(w: u32, h: u32, consumed: bool, taken: Option<u64>, d: u64)
    ensures
        event_steps(WindowEventKind::CloseRequested, false, taken) == seq![LoopStep::Exit],
        event_steps(WindowEventKind::CloseRequested, true, taken).len() == 0,
        event_steps(WindowEventKind::Resized { width: w, height: h }, consumed, taken) == seq![
            LoopStep::Resize { width: w, height: h },
            LoopStep::RequestRedraw,
        ],
        event_steps(WindowEventKind::ScaleFactorChanged, consumed, taken) == seq![LoopStep::Rescale],
        event_steps(WindowEventKind::Other, consumed, taken).len() == 0,
        d > 0 ==> event_steps(WindowEventKind::RedrawRequested, consumed, Some(d)) == seq![
            LoopStep::DrawFrame,
            LoopStep::RequestRedraw,
            LoopStep::Sleep(d),
        ],
        event_steps(WindowEventKind::RedrawRequested, consumed, None) == seq![
            LoopStep::DrawFrame,
            LoopStep::RequestRedraw,
            LoopStep::Sleep(DEFAULT_FRAME_MS),
        ],
        event_steps(WindowEventKind::RedrawRequested, consumed, Some(0)) == seq![
            LoopStep::DrawFrame,
            LoopStep::RequestRedraw,
            LoopStep::Sleep(DEFAULT_FRAME_MS),
        ],
{
    assert(event_steps(WindowEventKind::CloseRequested, false, taken) =~= seq![LoopStep::Exit]);
    assert(event_steps(WindowEventKind::Resized { width: w, height: h }, consumed, taken) =~= seq![
        LoopStep::Resize { width: w, height: h },
        LoopStep::RequestRedraw,
    ]);
    assert(event_steps(WindowEventKind::ScaleFactorChanged, consumed, taken) =~= seq![LoopStep::Rescale]);
    assert(event_steps(WindowEventKind::RedrawRequested, consumed, Some(d)) =~= seq![
        LoopStep::DrawFrame,
        LoopStep::RequestRedraw,
        LoopStep::Sleep(if d == 0 { DEFAULT_FRAME_MS } else { d }),
    ]);
    assert(event_steps(WindowEventKind::RedrawRequested, consumed, None) =~= seq![
        LoopStep::DrawFrame,
        LoopStep::RequestRedraw,
        LoopStep::Sleep(DEFAULT_FRAME_MS),
    ]);
    assert(event_steps(WindowEventKind::RedrawRequested, consumed, Some(0)) =~= seq![
        LoopStep::DrawFrame,
        LoopStep::RequestRedraw,
        LoopStep::Sleep(DEFAULT_FRAME_MS),
    ]);
}

} // verus!
