//! Artificial frame-delay counter.
//!
//! The client injects an adjustable stall into its frame tick to simulate a
//! slow frame. The stall length in milliseconds moves up and down in fixed
//! steps; stepping down saturates at zero, so the counter can never go
//! negative.

use vstd::prelude::*;

verus! {

/// How many milliseconds one key press adds to or removes from the delay.
pub const DELAY_MS_STEP: u32 = 5;

/// The artificial delay, in whole milliseconds. Zero means no stall.
pub struct DelayControl {
    pub ms: u32,
}

impl DelayControl {
    pub fn new() -> (d: DelayControl)
        ensures
            d.ms == 0,
    {
        DelayControl { ms: 0 }
    }

    /// Lengthen the stall by one fixed step.
    pub fn increase(&mut self)
        requires
            old(self).ms + DELAY_MS_STEP <= u32::MAX,
        ensures
            final(self).ms == old(self).ms + DELAY_MS_STEP,
    {
        self.ms = self.ms + DELAY_MS_STEP;
    }

    /// Shorten the stall by one fixed step, saturating at zero: the counter
    /// never goes negative.
    pub fn decrease(&mut self)
        ensures
            final(self).ms == if old(self).ms >= DELAY_MS_STEP {
                (old(self).ms - DELAY_MS_STEP) as int
            } else {
                0
            },
            final(self).ms <= old(self).ms,
    {
        self.ms = if self.ms >= DELAY_MS_STEP {
            self.ms - DELAY_MS_STEP
        } else {
            0
        };
    }

    /// The current stall length in milliseconds.
    pub fn current_ms(&self) -> (r: u32)
        ensures
            r == self.ms,
    {
        self.ms
    }
}

} // verus!
