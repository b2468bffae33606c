//! The two process-wide tunables: throttle level (1–9) and worker count
//! (1–8). Both are clamped on write and read by every timing computation,
//! so all cadence and budget math is a deterministic function of them.

use vstd::prelude::*;

verus! {

/// Clamping of a knob write into its allowed band.
pub open spec fn spec_clamp(v: int, lo: int, hi: int) -> int {
    if v < lo {
        lo
    } else if v > hi {
        hi
    } else {
        v
    }
}

/// The tunables, passed explicitly to each component that needs them.
pub struct ThrottleKnobs {
    level: u8,
    threads: u8,
}

impl ThrottleKnobs {
    /// Both knobs sit inside their bands.
    pub open spec fn wf(&self) -> bool {
        &&& 1 <= self.spec_level() <= 9
        &&& 1 <= self.spec_threads() <= 8
    }

    /// The throttle level.
    pub closed spec fn spec_level(&self) -> u8 {
        self.level
    }

    /// The worker count.
    pub closed spec fn spec_threads(&self) -> u8 {
        self.threads
    }

    /// The defaults: mid throttle, one worker.
    pub fn new() -> (r: Self)
        ensures
            r.wf(),
            r.spec_level() == 5,
            r.spec_threads() == 1,
    {
        ThrottleKnobs { level: 5, threads: 1 }
    }

    /// The current throttle level.
    pub fn get_throttle_level(&self) -> (r: u8)
        ensures
            r == self.spec_level(),
    {
        self.level
    }

    /// The current worker count.
    pub fn get_consumption_threads(&self) -> (r: u8)
        ensures
            r == self.spec_threads(),
    {
        self.threads
    }

    /// Sets the throttle level, clamped into 1..=9; an out-of-range
    /// write is corrected at this boundary, never propagated inward.
    pub fn set_throttle_level(&mut self, level: u8)
        requires
            old(self).wf(),
        ensures
            final(self).wf(),
            final(self).spec_level() == spec_clamp(level as int, 1, 9),
            final(self).spec_threads() == old(self).spec_threads(),
    {
        let clamped = if level < 1 {
            1
        } else if level > 9 {
            9
        } else {
            level
        };
        self.level = clamped;
    }

    /// Sets the worker count, clamped into 1..=8.
    pub fn set_consumption_threads(&mut self, count: u8)
        requires
            old(self).wf(),
        ensures
            final(self).wf(),
            final(self).spec_threads() == spec_clamp(count as int, 1, 8),
            final(self).spec_level() == old(self).spec_level(),
    {
        let clamped = if count < 1 {
            1
        } else if count > 8 {
            8
        } else {
            count
        };
        self.threads = clamped;
    }
}

} // verus!
