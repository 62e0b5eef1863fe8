use vstd::prelude::*;
use std::sync::Arc;
use std::sync::atomic::{AtomicBool, AtomicU64};
use std::sync::atomic::Ordering;

verus! {

/// The pause between frames, in milliseconds, when no other delay was asked.
pub const DEFAULT_FRAME_MS: u64 = 8;

#[derive(Debug)]
struct RepaintSignalInner {
    needs_repaint: AtomicBool,
    repaint_delay_ms: AtomicU64,
}

/// A flag, shared between threads, by which background work asks the
/// window for a new frame, with the delay to wait before drawing it. Its
/// state lives in std atomics, whose values are not modeled, and any thread
/// may change it at any moment: no method states anything of it.
#[derive(Debug, Clone)]
pub struct RepaintSignal {
    inner: Arc<RepaintSignalInner>,
}

impl RepaintSignal {
    /// A signal with no frame asked for and the default delay.
    pub fn new() -> Self {
        RepaintSignal {
            inner: Arc::new(
                RepaintSignalInner {
                    needs_repaint: AtomicBool::new(false),
                    repaint_delay_ms: AtomicU64::new(DEFAULT_FRAME_MS),
                },
            ),
        }
    }

    /// Asks for a frame with no delay.
    pub fn request_repaint_immediate(&self) {
        self.inner.repaint_delay_ms.store(0, Ordering::Relaxed);
        self.inner.needs_repaint.store(true, Ordering::Release);
    }

    /// Asks for a frame after `ms` milliseconds.
    pub fn request_repaint_after(&self, ms: u64) {
        self.inner.repaint_delay_ms.store(ms, Ordering::Relaxed);
        self.inner.needs_repaint.store(true, Ordering::Release);
    }

    /// Takes the request, if one is pending, and returns its delay; the
    /// flag is cleared. Other threads may ask again at any moment, so no
    /// outcome is promised.
    pub fn take(&self) -> Option<u64> {
        let pending = self.inner.needs_repaint.swap(false, Ordering::Acquire);
        if pending {
            Some(self.inner.repaint_delay_ms.load(Ordering::Relaxed))
        } else {
            None
        }
    }
}

/// How long the window waits before the next frame, from what `take`
/// returned: the asked delay, or the default one when none was asked or the
/// asked delay is zero.
pub fn frame_sleep_ms(taken: Option<u64>) -> (ms: u64)
    ensures
        ms == match taken {
            Some(d) => if d == 0 { DEFAULT_FRAME_MS } else { d },
            None => DEFAULT_FRAME_MS,
        },
{
    match taken {
        Some(0) => DEFAULT_FRAME_MS,
        Some(ms) => ms,
        None => DEFAULT_FRAME_MS,
    }
}

} // verus!
