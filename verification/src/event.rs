//! Frame pacing for the window event loop.
//!
//! The rendering loop should not spin faster than about sixty frames a
//! second, and should block for an event when it has nothing to do.  The
//! decisions are computed here from plain millisecond timestamps; reading
//! the clock, sleeping, and polling the window system stay with the
//! caller.

use vstd::prelude::*;

verus! {

/// Minimum number of milliseconds between two loop iterations.
pub const FRAME_INTERVAL_MS: u64 = 16;

/// Pacing state of the event loop.
pub struct EventLoop {
    /// Whether the interface still owes a redraw, in which case the loop
    /// must not block waiting for an event.
    pub ui_needs_update: bool,
    /// When the last iteration finished, in milliseconds; a fresh loop
    /// starts at zero, so the first iteration is never delayed.
    pub last_update_ms: u64,
}

impl EventLoop {
    pub fn new() -> (r: Self)
        ensures
            !r.ui_needs_update,
            r.last_update_ms == 0,
    {
        EventLoop { ui_needs_update: false, last_update_ms: 0 }
    }

    /// How many milliseconds to sleep before the next iteration, so that
    /// at least `FRAME_INTERVAL_MS` passes between iterations.
    pub fn throttle(&self, now_ms: u64) -> (d: u64)
        requires
            self.last_update_ms <= now_ms,
        ensures
            d == if now_ms - self.last_update_ms < FRAME_INTERVAL_MS {
                FRAME_INTERVAL_MS - (now_ms - self.last_update_ms)
            } else {
                0
            },
    {
        let elapsed = now_ms - self.last_update_ms;
        if elapsed < FRAME_INTERVAL_MS {
            FRAME_INTERVAL_MS - elapsed
        } else {
            0
        }
    }

    /// Whether to block for the next event: nothing is pending and no
    /// update is owed.
    pub fn should_wait(&self, pending_events: usize) -> (b: bool)
        ensures
            b == (pending_events == 0 && !self.ui_needs_update),
    {
        pending_events == 0 && !self.ui_needs_update
    }

    /// Ends one iteration: the update obligation is consumed and the
    /// finishing time recorded.
    pub fn mark_tick(&mut self, now_ms: u64)
        ensures
            !final(self).ui_needs_update,
            final(self).last_update_ms == now_ms,
    {
        self.ui_needs_update = false;
        self.last_update_ms = now_ms;
    }
}

} // verus!
