//! The sampler's decisions for one tick: clamp the reading, pick the delay,
//! advance the frame and build the event for the event loop.
use vstd::prelude::*;

use crate::clock::{
    calculate_duration, clamp_utilization, clamped_utilization, duration_ms, next_frame,
    next_frame_spec, MAX_UTILIZATION,
};
use crate::resources::FRAME_COUNT;

verus! {

/// What the sampler sends to the event loop: a frame offset within the cycle
/// and the utilization in tenths of a percent.  The theme is not resolved
/// here: the receiver resolves it when the event is applied.
#[derive(Clone, Copy, Debug, PartialEq, Eq, Structural)]
pub struct SamplerEvent {
    pub frame: usize,
    pub utilization: u32,
}

impl SamplerEvent {
    pub open spec fn wf(self) -> bool {
        self.frame < FRAME_COUNT && self.utilization <= MAX_UTILIZATION
    }

    /// Whether the frame is within the cycle and the utilization within `[0, 100%]`.
    pub fn is_valid(&self) -> (r: bool)
        ensures
            r == self.wf(),
    {
        self.frame < FRAME_COUNT && self.utilization <= MAX_UTILIZATION
    }
}

/// Result of one tick: the event to send and how long to sleep afterwards.
#[derive(Clone, Copy, Debug, PartialEq, Eq, Structural)]
pub struct SamplerTick {
    pub event: SamplerEvent,
    pub sleep_ms: u64,
}

/// The sampler's own state: the current frame of the animation cycle.
#[derive(Clone, Copy, Debug, PartialEq, Eq, Structural)]
pub struct Sampler {
    pub frame: usize,
}

/// The tick that a sampler at `frame` makes on a raw reading of `raw` tenths.
pub open spec fn tick_spec(frame: nat, raw: int) -> SamplerTick {
    let t = clamped_utilization(raw);
    SamplerTick {
        event: SamplerEvent { frame: next_frame_spec(frame) as usize, utilization: t as u32 },
        sleep_ms: duration_ms(t) as u64,
    }
}

impl Sampler {
    pub open spec fn wf(self) -> bool {
        self.frame < FRAME_COUNT
    }

    /// A sampler at the first frame.
    pub fn new() -> (s: Sampler)
        ensures
            s.wf(),
            s.frame == 0,
    {
        Sampler { frame: 0 }
    }

    /// One sampling tick on a raw reading in tenths of a percent (any value:
    /// it is clamped to `[0, 1000]`).  The frame advances by one, modulo the
    /// cycle, and the event carries the new frame.
    pub fn tick(&mut self, raw: i64) -> (r: SamplerTick)
        requires
            old(self).wf(),
        ensures
            final(self).wf(),
            final(self).frame == next_frame_spec(old(self).frame as nat),
            r == tick_spec(old(self).frame as nat, raw as int),
            r.event.wf(),
            r.event.frame == final(self).frame,
    {
        let utilization = clamp_utilization(raw);
        let sleep_ms = calculate_duration(utilization);
        self.frame = next_frame(self.frame);
        SamplerTick { event: SamplerEvent { frame: self.frame, utilization }, sleep_ms }
    }
}

} // verus!
