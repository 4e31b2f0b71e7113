//! The adaptive dual-resolution render pipeline.
//!
//! The engine renders into a cheap low-resolution target while input is
//! active and promotes to the full-resolution target once input has settled
//! for a debounce delay.  The pipeline is a four-state machine: `Idle` (the
//! full-resolution image is current), `Dirty` (a redraw is pending),
//! `LowResShown` (the low-resolution proxy was just rendered and the
//! debounce timer runs), `Promoting` (the debounce elapsed and the
//! full-resolution render of this frame is underway).

use vstd::prelude::*;
use crate::cfg::{LOWRES_DIVISOR, LOWRES_MILLIS};

verus! {

/// Viewport dimensions in pixels.
#[derive(Clone, Copy, Debug, PartialEq, Eq, Structural)]
pub struct WindowDims {
    pub width: u32,
    pub height: u32,
}

impl WindowDims {
    /// The dimensions of the low-resolution proxy target: both sides divided
    /// by the configured factor.
    pub fn to_lowres(&self) -> (r: WindowDims)
        ensures
            r.width == self.width as int / LOWRES_DIVISOR as int,
            r.height == self.height as int / LOWRES_DIVISOR as int,
    {
        WindowDims { width: self.width / LOWRES_DIVISOR, height: self.height / LOWRES_DIVISOR }
    }
}

/// The pipeline's state.
#[derive(Clone, Copy, Debug, PartialEq, Eq, Structural)]
pub enum RenderPhase {
    Idle,
    Dirty,
    LowResShown,
    Promoting,
}

/// What the caller should render into this frame.
#[derive(Clone, Copy, Debug, PartialEq, Eq, Structural)]
pub enum RenderAction {
    NoRender,
    RenderLow,
    RenderFull,
}

/// Milliseconds elapsed between two clock readings, zero if the clock moved
/// backwards.
pub open spec fn elapsed_millis(since: u64, now: u64) -> int {
    if now >= since {
        now - since
    } else {
        0
    }
}

/// The debounce state machine with its timer.
pub struct RenderPipeline {
    pub phase: RenderPhase,
    pub lowres_since: u64,
}

/// The transition [`RenderPipeline::begin_frame`] takes at time `now`.
pub open spec fn begin_frame_spec(p: RenderPipeline, now: u64) -> (RenderPipeline, RenderAction) {
    match p.phase {
        RenderPhase::Dirty => (
            RenderPipeline { phase: RenderPhase::LowResShown, lowres_since: now },
            RenderAction::RenderLow,
        ),
        RenderPhase::LowResShown => {
            if elapsed_millis(p.lowres_since, now) > LOWRES_MILLIS {
                (
                    RenderPipeline { phase: RenderPhase::Promoting, lowres_since: p.lowres_since },
                    RenderAction::RenderFull,
                )
            } else {
                (p, RenderAction::NoRender)
            }
        },
        _ => (p, RenderAction::NoRender),
    }
}

/// The debounce protocol, over arbitrary frame times: a mutation leads to a
/// proxy render on the next frame; while frames begin within the debounce
/// delay of that render nothing further is rendered; the first frame past
/// the delay renders the full-resolution target once and the pipeline
/// settles back to idle.  A second mutation before the delay elapses
/// restarts the timer: even a frame past the first deadline renders nothing
/// until the new delay has passed.
pub proof fn lemma_debounce_protocol(p: RenderPipeline, t1: u64, t2: u64, t3: u64, t4: u64)
    requires
        p.phase == RenderPhase::Dirty,
        t1 <= t2,
        t2 <= t1 + LOWRES_MILLIS,
        t3 > t1 + LOWRES_MILLIS,
        t2 <= t4,
        t4 <= t2 + LOWRES_MILLIS,
    ensures
        ({
            let (shown, first) = begin_frame_spec(p, t1);
            &&& first == RenderAction::RenderLow
            &&& shown.phase == RenderPhase::LowResShown
            // quiet frames within the delay change nothing
            &&& begin_frame_spec(shown, t2) == (shown, RenderAction::NoRender)
            // the first frame past the delay promotes, once
            &&& begin_frame_spec(shown, t3).1 == RenderAction::RenderFull
            &&& begin_frame_spec(shown, t3).0.phase == RenderPhase::Promoting
            // a new mutation at t2 restarts the timer: a frame at t4 past
            // the original deadline still renders nothing
            &&& {
                let (reshown, again) = begin_frame_spec(
                    RenderPipeline { phase: RenderPhase::Dirty, lowres_since: shown.lowres_since },
                    t2,
                );
                &&& again == RenderAction::RenderLow
                &&& begin_frame_spec(reshown, t4) == (reshown, RenderAction::NoRender)
            }
        }),
{
}

impl RenderPipeline {
    /// A fresh pipeline starts dirty: the first frame renders.
    pub fn new() -> (r: RenderPipeline)
        ensures
            r.phase == RenderPhase::Dirty,
            r.lowres_since == 0,
    {
        RenderPipeline { phase: RenderPhase::Dirty, lowres_since: 0 }
    }

    /// Any mutation that affects pixel output makes the pipeline dirty, from
    /// every state; a running debounce timer is thereby cancelled.
    pub fn mark_dirty(&mut self)
        ensures
            final(self).phase == RenderPhase::Dirty,
            final(self).lowres_since == old(self).lowres_since,
    {
        self.phase = RenderPhase::Dirty;
    }

    /// Decide this frame's off-screen rendering.  A pending redraw renders
    /// the low-resolution proxy and arms the debounce timer; a timer that
    /// has run out without a new redraw promotes to a full-resolution
    /// render.
    pub fn begin_frame(&mut self, now: u64) -> (r: RenderAction)
        ensures
            (*final(self), r) == begin_frame_spec(*old(self), now),
            old(self).phase == RenderPhase::Dirty ==> {
                &&& final(self).phase == RenderPhase::LowResShown
                &&& final(self).lowres_since == now
                &&& r == RenderAction::RenderLow
            },
            old(self).phase == RenderPhase::LowResShown ==> {
                &&& final(self).lowres_since == old(self).lowres_since
                &&& if elapsed_millis(old(self).lowres_since, now) > LOWRES_MILLIS {
                    final(self).phase == RenderPhase::Promoting && r == RenderAction::RenderFull
                } else {
                    final(self).phase == RenderPhase::LowResShown && r == RenderAction::NoRender
                }
            },
            old(self).phase == RenderPhase::Idle || old(self).phase == RenderPhase::Promoting
                ==> *final(self) == *old(self) && r == RenderAction::NoRender,
    {
        match self.phase {
            RenderPhase::Dirty => {
                self.phase = RenderPhase::LowResShown;
                self.lowres_since = now;
                RenderAction::RenderLow
            },
            RenderPhase::LowResShown => {
                let elapsed = if now >= self.lowres_since {
                    now - self.lowres_since
                } else {
                    0
                };
                if elapsed > LOWRES_MILLIS {
                    self.phase = RenderPhase::Promoting;
                    RenderAction::RenderFull
                } else {
                    RenderAction::NoRender
                }
            },
            _ => RenderAction::NoRender,
        }
    }

    /// The frame's rendering is done; a finished promotion leaves the
    /// full-resolution image current.
    pub fn end_frame(&mut self)
        ensures
            old(self).phase == RenderPhase::Promoting ==> final(self).phase == RenderPhase::Idle,
            old(self).phase != RenderPhase::Promoting ==> *final(self) == *old(self),
            final(self).lowres_since == old(self).lowres_since,
    {
        if matches!(self.phase, RenderPhase::Promoting) {
            self.phase = RenderPhase::Idle;
        }
    }

    /// Which target the screen composite samples: the low-resolution proxy
    /// exactly while the debounce timer runs.
    pub fn composite_lowres(&self) -> (r: bool)
        ensures
            r == (self.phase == RenderPhase::LowResShown),
    {
        matches!(self.phase, RenderPhase::LowResShown)
    }
}

} // verus!
