//! A reusable once-fire timer gating how often discrete actions may occur.
//! Elapsed time accumulates in milliseconds and saturates at the duration;
//! once ready the timer stays ready until it is explicitly reset.

use vstd::prelude::*;

verus! {

/// A once-fire timer: ready exactly when `elapsed_ms` has reached
/// `duration_ms`. A duration of zero means always ready.
#[derive(Clone, Copy, PartialEq, Eq, Structural, Debug)]
pub struct Cooldown {
    pub duration_ms: u64,
    pub elapsed_ms: u64,
}

impl Cooldown {
    /// Elapsed time never exceeds the duration (ticking saturates there).
    pub open spec fn wf(self) -> bool {
        self.elapsed_ms <= self.duration_ms
    }

    /// The timer has accumulated its full duration.
    pub open spec fn ready(self) -> bool {
        self.elapsed_ms >= self.duration_ms
    }

    /// The timer after advancing by `dt_ms`, saturating at the duration.
    pub open spec fn spec_ticked(self, dt_ms: u64) -> Cooldown {
        if self.elapsed_ms + dt_ms >= self.duration_ms {
            Cooldown { duration_ms: self.duration_ms, elapsed_ms: self.duration_ms }
        } else {
            Cooldown { duration_ms: self.duration_ms, elapsed_ms: (self.elapsed_ms + dt_ms) as u64 }
        }
    }

    /// A fresh timer: nothing elapsed yet.
    pub fn new(duration_ms: u64) -> (r: Cooldown)
        ensures
            r.wf(),
            r.duration_ms == duration_ms,
            r.elapsed_ms == 0,
    {
        Cooldown { duration_ms, elapsed_ms: 0 }
    }

    /// Advances the timer by `dt_ms` and reports whether it is now ready.
    /// A `dt_ms` of zero leaves the timer unchanged.
    pub fn tick(&mut self, dt_ms: u64) -> (r: bool)
        requires
            old(self).wf(),
        ensures
            final(self).wf(),
            *final(self) == old(self).spec_ticked(dt_ms),
            r == final(self).ready(),
    {
        if dt_ms >= self.duration_ms - self.elapsed_ms {
            self.elapsed_ms = self.duration_ms;
        } else {
            self.elapsed_ms = self.elapsed_ms + dt_ms;
        }
        self.elapsed_ms >= self.duration_ms
    }

    /// Starts the interval over; the duration is kept.
    pub fn reset(&mut self)
        ensures
            final(self).wf(),
            final(self).duration_ms == old(self).duration_ms,
            final(self).elapsed_ms == 0,
    {
        self.elapsed_ms = 0;
    }

    /// Reports readiness without advancing.
    pub fn is_ready(&self) -> (r: bool)
        ensures
            r == self.ready(),
    {
        self.elapsed_ms >= self.duration_ms
    }
}

} // verus!
