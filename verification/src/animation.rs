//! A one-shot countdown used by the board machine's scripted banners. The
//! countdown reports `finished` exactly once, on the tick where the timer
//! first runs out.

use vstd::prelude::*;

verus! {

pub struct Animation {
    pub finished: bool,
    pub time_ms: u32,
}

impl Animation {
    /// The short post-turn animation, half a second long.
    pub fn stub() -> (r: Animation)
        ensures
            r.time_ms == 500,
            !r.finished,
    {
        Animation { time_ms: 500, finished: false }
    }

    /// A countdown of the given length in milliseconds.
    pub fn time(time_ms: u32) -> (r: Animation)
        ensures
            r.time_ms == time_ms,
            !r.finished,
    {
        Animation { time_ms, finished: false }
    }

    /// Advances the countdown by `dt_ms`, stopping at zero.
    pub fn update(&mut self, dt_ms: u32)
        ensures
            final(self).time_ms == crate::ledger::sat_sub(old(self).time_ms, dt_ms),
            final(self).finished == old(self).finished,
    {
        self.time_ms = crate::ledger::sub_saturating(self.time_ms, dt_ms);
    }

    /// True exactly once: on the first call after the timer has run out.
    pub fn finished(&mut self) -> (r: bool)
        ensures
            r == (!old(self).finished && old(self).time_ms == 0),
            final(self).finished == (old(self).finished || old(self).time_ms == 0),
            final(self).time_ms == old(self).time_ms,
    {
        if !self.finished && self.time_ms == 0 {
            self.finished = true;
            true
        } else {
            false
        }
    }
}

} // verus!
