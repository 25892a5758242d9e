//! The roar state machine: a strict two-state (idle/active) machine driven
//! by a countdown. A trigger edge while idle enters the active state and
//! emits an enter event; while active a trigger is ignored, not queued.
//! Ticking accumulates elapsed time until the full duration is reached, at
//! which point the machine exits exactly once, emitting an exit event. A
//! long tick can overshoot and finish the countdown early but never
//! undershoots.

use vstd::prelude::*;

use crate::cooldown::Cooldown;
use crate::events::Event;

verus! {

/// The idle/active roar state; `remaining` counts the active phase out.
#[derive(Clone, Copy, PartialEq, Eq, Structural, Debug)]
pub struct TimedState {
    pub active: bool,
    pub remaining: Cooldown,
}

/// The machine after one tick of `dt_ms`: idle is untouched; active
/// accumulates, and leaves the active state the moment the full duration
/// is reached.
pub open spec fn spec_step(s: TimedState, dt_ms: u64) -> TimedState {
    if !s.active {
        s
    } else if s.remaining.elapsed_ms + dt_ms >= s.remaining.duration_ms {
        TimedState { active: false, remaining: s.remaining.spec_ticked(dt_ms) }
    } else {
        TimedState { active: true, remaining: s.remaining.spec_ticked(dt_ms) }
    }
}

/// One tick of `dt_ms` makes the machine exit (the only step that emits an
/// exit event).
pub open spec fn step_exits(s: TimedState, dt_ms: u64) -> bool {
    s.active && s.remaining.elapsed_ms + dt_ms >= s.remaining.duration_ms
}

/// The machine after one trigger edge: entered afresh from idle, and
/// untouched while already active.
pub open spec fn spec_triggered(s: TimedState) -> TimedState {
    if s.active {
        s
    } else {
        TimedState {
            active: true,
            remaining: Cooldown { duration_ms: s.remaining.duration_ms, elapsed_ms: 0 },
        }
    }
}

/// The machine after a whole sequence of ticks.
pub open spec fn run(s: TimedState, dts: Seq<u64>) -> TimedState
    decreases dts.len(),
{
    if dts.len() == 0 {
        s
    } else {
        run(spec_step(s, dts[0]), dts.drop_first())
    }
}

/// How many exit events a sequence of ticks emits.
pub open spec fn exit_count(s: TimedState, dts: Seq<u64>) -> nat
    decreases dts.len(),
{
    if dts.len() == 0 {
        0
    } else {
        (if step_exits(s, dts[0]) {
            1nat
        } else {
            0nat
        }) + exit_count(spec_step(s, dts[0]), dts.drop_first())
    }
}

/// Total time of a sequence of ticks.
pub open spec fn total_ms(dts: Seq<u64>) -> int
    decreases dts.len(),
{
    if dts.len() == 0 {
        0
    } else {
        dts[0] + total_ms(dts.drop_first())
    }
}

impl TimedState {
    /// The countdown is well formed (elapsed saturates at the duration).
    pub open spec fn wf(self) -> bool {
        self.remaining.wf()
    }

    /// A fresh machine: idle, with the given full duration armed.
    pub fn new(duration_ms: u64) -> (r: TimedState)
        ensures
            r.wf(),
            !r.active,
            r.remaining.duration_ms == duration_ms,
            r.remaining.elapsed_ms == 0,
    {
        TimedState { active: false, remaining: Cooldown::new(duration_ms) }
    }

    /// Handles one rising edge of the trigger. Idle: enters the active
    /// state with the countdown re-armed and emits `RoarStarted`. Active:
    /// a no-op — state and timer unaffected, no event.
    pub fn trigger(&mut self) -> (ev: Option<Event>)
        requires
            old(self).wf(),
        ensures
            final(self).wf(),
            *final(self) == spec_triggered(*old(self)),
            final(self).remaining.duration_ms == old(self).remaining.duration_ms,
            old(self).active ==> *final(self) == *old(self) && ev == None::<Event>,
            !old(self).active ==> {
                &&& final(self).active
                &&& final(self).remaining.elapsed_ms == 0
                &&& ev == Some(Event::RoarStarted)
            },
    {
        if self.active {
            None
        } else {
            self.active = true;
            self.remaining.reset();
            Some(Event::RoarStarted)
        }
    }

    /// Advances the machine by `dt_ms`, returning `RoarEnded` on the one
    /// tick that completes the countdown. Idle is a no-op.
    pub fn tick(&mut self, dt_ms: u64) -> (ev: Option<Event>)
        requires
            old(self).wf(),
        ensures
            final(self).wf(),
            *final(self) == spec_step(*old(self), dt_ms),
            ev == if step_exits(*old(self), dt_ms) {
                Some(Event::RoarEnded)
            } else {
                None::<Event>
            },
    {
        if !self.active {
            return None;
        }
        let done = self.remaining.tick(dt_ms);
        if done {
            self.active = false;
            Some(Event::RoarEnded)
        } else {
            None
        }
    }
}

/// Every tick of a sequence adds a non-negative amount of time.
proof fn lemma_total_nonneg(dts: Seq<u64>)
    ensures
        total_ms(dts) >= 0,
    decreases dts.len(),
{
    if dts.len() > 0 {
        lemma_total_nonneg(dts.drop_first());
    }
}

/// An idle machine is unaffected by ticking and emits no exit events.
proof fn lemma_idle_runs_silent(s: TimedState, dts: Seq<u64>)
    requires
        !s.active,
    ensures
        run(s, dts) == s,
        exit_count(s, dts) == 0,
    decreases dts.len(),
{
    if dts.len() > 0 {
        lemma_idle_runs_silent(s, dts.drop_first());
    }
}

/// Running an active machine: if the sequence supplies at least the time
/// still missing (and is nonempty), the machine ends idle having emitted
/// exactly one exit event; if it supplies less, the machine is still
/// active with exactly the accumulated time and no exit event.
proof fn lemma_active_run(s: TimedState, dts: Seq<u64>)
    requires
        s.wf(),
        s.active,
    ensures
        s.remaining.elapsed_ms + total_ms(dts) >= s.remaining.duration_ms && dts.len() > 0 ==> {
            &&& !run(s, dts).active
            &&& exit_count(s, dts) == 1
        },
        s.remaining.elapsed_ms + total_ms(dts) < s.remaining.duration_ms ==> {
            &&& run(s, dts).active
            &&& run(s, dts).remaining.duration_ms == s.remaining.duration_ms
            &&& run(s, dts).remaining.elapsed_ms == s.remaining.elapsed_ms + total_ms(dts)
            &&& exit_count(s, dts) == 0
        },
    decreases dts.len(),
{
    if dts.len() > 0 {
        let s1 = spec_step(s, dts[0]);
        lemma_total_nonneg(dts.drop_first());
        if step_exits(s, dts[0]) {
            lemma_idle_runs_silent(s1, dts.drop_first());
        } else {
            lemma_active_run(s1, dts.drop_first());
        }
    }
}

/// Total-duration law: from idle, one trigger enters the active state
/// (emitting its single enter event, per `trigger`'s contract), and any
/// nonempty sequence of ticks whose cumulative time equals the full
/// duration ends the machine idle with exactly one exit event — no matter
/// how the time is split across the ticks.
pub proof fn lemma_roar_total_duration(s: TimedState, dts: Seq<u64>)
    requires
        s.wf(),
        !s.active,
        dts.len() > 0,
        total_ms(dts) == s.remaining.duration_ms,
    ensures
        !run(spec_triggered(s), dts).active,
        exit_count(spec_triggered(s), dts) == 1,
{
    lemma_active_run(spec_triggered(s), dts);
}

} // verus!
