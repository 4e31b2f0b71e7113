//! Frame pacing: a ceiling on the frame rate.
//!
//! The scheduler measures the time since the previous frame and reports how
//! long the caller must sleep so that no frame is shorter than the frame
//! budget.  It never asks for more than one budget of sleep.

use vstd::prelude::*;
use crate::cfg::FRAME_MILLIS;
use crate::pipeline::elapsed_millis;

verus! {

pub struct FrameScheduler {
    pub last_frame: u64,
}

impl FrameScheduler {
    pub fn new(now: u64) -> (r: FrameScheduler)
        ensures
            r.last_frame == now,
    {
        FrameScheduler { last_frame: now }
    }

    /// How many milliseconds remain of this frame's budget; the caller
    /// sleeps that long.  The previous-frame mark moves to the moment the
    /// sleep will end.
    pub fn wait_millis(&mut self, now: u64) -> (r: u64)
        requires
            now <= u64::MAX - FRAME_MILLIS,
        ensures
            r == if elapsed_millis(old(self).last_frame, now) < FRAME_MILLIS {
                FRAME_MILLIS - elapsed_millis(old(self).last_frame, now)
            } else {
                0
            },
            r <= FRAME_MILLIS,
            final(self).last_frame == now + r,
    {
        let elapsed = if now >= self.last_frame {
            now - self.last_frame
        } else {
            0
        };
        let r = if elapsed < FRAME_MILLIS {
            FRAME_MILLIS - elapsed
        } else {
            0
        };
        self.last_frame = now + r;
        r
    }
}

} // verus!
