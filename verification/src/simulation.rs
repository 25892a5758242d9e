//! The per-tick orchestrator. One `Simulation` aggregate exclusively owns
//! the agent, the treasure, and the roar state for the whole session, and
//! one call to `tick` runs a complete logical step: advance the movement
//! cooldown, compute and apply the agent's displacement, propagate the
//! displacement to a carried treasure, handle the pickup/drop edge, handle
//! the roar trigger and countdown, and resynchronize the agent's visual
//! scale. The events returned are fire-and-forget notifications for the
//! presentation layer; screen transforms are recomputed on demand,
//! camera-relative to the agent.

use vstd::prelude::*;

use crate::agent::{accepts, in_bounds, spec_displacement, Agent};
use crate::attachable::{spec_propagated, spec_toggled, toggle_event, Attachable, EntityId};
use crate::config::{
    AGENT_ID, AGENT_REACH, AGENT_START_X, AGENT_START_Y, BOUNDARY_X, BOUNDARY_Y, LANDSCAPE_ID,
    REACH_MAX, ROAR_MS, SCALE_NORMAL, SCALE_ROARING, TREASURE_ID, TREASURE_START_X,
    TREASURE_START_Y, Z_AGENT, Z_LANDSCAPE, Z_TREASURE_FREE,
};
use crate::cooldown::Cooldown;
use crate::events::Event;
use crate::input::InputState;
use crate::projector::{project, project_agent};
use crate::timed_state::{spec_step, spec_triggered, step_exits, TimedState};
use crate::vecmath::{lemma_within_reach_componentwise, Vec2, Vec3};

verus! {

/// What the render boundary needs for one entity: its identity, its
/// screen-relative position, and its visual scale.
#[derive(Clone, Copy, PartialEq, Eq, Structural, Debug)]
pub struct ScreenTransform {
    pub entity: EntityId,
    pub position: Vec3,
    pub scale: i64,
}

/// A sequence holding an optional event: one element when present.
pub open spec fn opt_seq(o: Option<Event>) -> Seq<Event> {
    match o {
        Some(e) => seq![e],
        None => Seq::<Event>::empty(),
    }
}

/// The whole simulation state, exclusively owned by the caller that runs
/// the ticks.
#[derive(Clone, Copy, PartialEq, Eq, Structural, Debug)]
pub struct Simulation {
    pub agent: Agent,
    pub treasure: Attachable,
    pub roar: TimedState,
}

impl Simulation {
    /// Session-wide invariant: every component is well formed; a carried
    /// treasure is carried by the agent and stays within the agent's reach
    /// on each axis; the treasure never strays farther than the world
    /// boundary plus the maximum reach; and the agent's scale mirrors the
    /// roar state.
    pub open spec fn wf(self) -> bool {
        &&& self.agent.wf()
        &&& self.treasure.wf()
        &&& self.roar.wf()
        &&& self.treasure.attached() ==> self.treasure.carried_by == Some(AGENT_ID)
        &&& self.treasure.attached() ==> {
            &&& -self.agent.reach <= self.treasure.position.x - self.agent.position.x
                <= self.agent.reach
            &&& -self.agent.reach <= self.treasure.position.y - self.agent.position.y
                <= self.agent.reach
        }
        &&& -(BOUNDARY_X + REACH_MAX) <= self.treasure.position.x <= BOUNDARY_X + REACH_MAX
        &&& -(BOUNDARY_Y + REACH_MAX) <= self.treasure.position.y <= BOUNDARY_Y + REACH_MAX
        &&& self.agent.scale == (if self.roar.active {
            SCALE_ROARING
        } else {
            SCALE_NORMAL
        })
    }

    /// The simulation after one tick: the movement cooldown advances, the
    /// intended displacement is applied atomically if accepted (restarting
    /// the cooldown and dragging a carried treasure along), a confirm edge
    /// toggles the attachment at the new agent position, a roar edge
    /// enters the roar state, the roar countdown advances, and the agent's
    /// scale reflects the resulting roar state.
    pub open spec fn spec_tick_state(self, input: InputState, dt_ms: u64) -> Simulation {
        let cd = self.agent.move_cooldown.spec_ticked(dt_ms);
        let d = spec_displacement(input, cd.ready());
        let moved = accepts(self.agent.position, d);
        let pos1 = if moved {
            Vec3 {
                x: (self.agent.position.x + d.x) as i64,
                y: (self.agent.position.y + d.y) as i64,
                z: self.agent.position.z,
            }
        } else {
            self.agent.position
        };
        let cd1 = if moved {
            Cooldown { duration_ms: cd.duration_ms, elapsed_ms: 0 }
        } else {
            cd
        };
        let t1 = if moved {
            spec_propagated(self.treasure, d)
        } else {
            self.treasure
        };
        let t2 = if input.confirm {
            spec_toggled(t1, pos1, self.agent.reach as int, AGENT_ID)
        } else {
            t1
        };
        let r1 = if input.roar {
            spec_triggered(self.roar)
        } else {
            self.roar
        };
        let r2 = spec_step(r1, dt_ms);
        Simulation {
            agent: Agent {
                position: pos1,
                reach: self.agent.reach,
                move_cooldown: cd1,
                scale: if r2.active {
                    SCALE_ROARING
                } else {
                    SCALE_NORMAL
                },
            },
            treasure: t2,
            roar: r2,
        }
    }

    /// The events one tick emits, in order: the attachment event of a
    /// confirm edge, then the roar enter event of a roar edge, then the
    /// roar exit event of a countdown that just completed.
    pub open spec fn spec_tick_events(self, input: InputState, dt_ms: u64) -> Seq<Event> {
        let cd = self.agent.move_cooldown.spec_ticked(dt_ms);
        let d = spec_displacement(input, cd.ready());
        let moved = accepts(self.agent.position, d);
        let pos1 = if moved {
            Vec3 {
                x: (self.agent.position.x + d.x) as i64,
                y: (self.agent.position.y + d.y) as i64,
                z: self.agent.position.z,
            }
        } else {
            self.agent.position
        };
        let t1 = if moved {
            spec_propagated(self.treasure, d)
        } else {
            self.treasure
        };
        let ev_attach = if input.confirm {
            toggle_event(t1, pos1, self.agent.reach as int)
        } else {
            None
        };
        let r1 = if input.roar {
            spec_triggered(self.roar)
        } else {
            self.roar
        };
        let ev_start = if input.roar && !self.roar.active {
            Some(Event::RoarStarted)
        } else {
            None
        };
        let ev_end = if step_exits(r1, dt_ms) {
            Some(Event::RoarEnded)
        } else {
            None
        };
        opt_seq(ev_attach) + opt_seq(ev_start) + opt_seq(ev_end)
    }

    /// A fresh session: the agent at its start with the movement cooldown
    /// started, the treasure free-standing at its start, and the roar state
    /// idle with its full duration armed.
    pub fn new(agent_start: Vec3, reach: i64, treasure_start: Vec3) -> (r: Simulation)
        requires
            in_bounds(agent_start),
            0 <= reach <= REACH_MAX,
            treasure_start.z == Z_TREASURE_FREE,
            -(BOUNDARY_X + REACH_MAX) <= treasure_start.x <= BOUNDARY_X + REACH_MAX,
            -(BOUNDARY_Y + REACH_MAX) <= treasure_start.y <= BOUNDARY_Y + REACH_MAX,
        ensures
            r.wf(),
            r.agent.position == agent_start,
            r.agent.reach == reach,
            r.agent.scale == SCALE_NORMAL,
            r.agent.move_cooldown.duration_ms == crate::config::MOVE_COOLDOWN_MS,
            r.agent.move_cooldown.elapsed_ms == 0,
            r.treasure.position == treasure_start,
            r.treasure.carried_by == None::<EntityId>,
            !r.roar.active,
            r.roar.remaining.duration_ms == ROAR_MS,
            r.roar.remaining.elapsed_ms == 0,
    {
        Simulation {
            agent: Agent::new(agent_start, reach),
            treasure: Attachable::new(treasure_start),
            roar: TimedState::new(ROAR_MS),
        }
    }

    /// The configured default session of the game: agent at its start
    /// position with the default reach, treasure at its start position.
    pub fn new_session() -> (r: Simulation)
        ensures
            r.wf(),
            r.agent.position == (Vec3 { x: AGENT_START_X, y: AGENT_START_Y, z: Z_AGENT }),
            r.agent.reach == AGENT_REACH,
            r.treasure.position == (Vec3 {
                x: TREASURE_START_X,
                y: TREASURE_START_Y,
                z: Z_TREASURE_FREE,
            }),
            r.treasure.carried_by == None::<EntityId>,
            !r.roar.active,
            r.roar.remaining.duration_ms == ROAR_MS,
    {
        Simulation::new(
            Vec3 { x: AGENT_START_X, y: AGENT_START_Y, z: Z_AGENT },
            AGENT_REACH,
            Vec3 { x: TREASURE_START_X, y: TREASURE_START_Y, z: Z_TREASURE_FREE },
        )
    }

    /// Runs one complete simulation step and returns the emitted events.
    #[verifier::rlimit(50)]
    pub fn tick(&mut self, input: InputState, dt_ms: u64) -> (events: Vec<Event>)
        requires
            old(self).wf(),
        ensures
            final(self).wf(),
            *final(self) == old(self).spec_tick_state(input, dt_ms),
            events@ =~= old(self).spec_tick_events(input, dt_ms),
    {
        let ghost s0 = *old(self);
        let mut events: Vec<Event> = Vec::new();

        self.agent.advance_cooldown(dt_ms);
        let d = self.agent.compute_displacement(&input);
        proof {
            assert(d == spec_displacement(input, s0.agent.move_cooldown.spec_ticked(dt_ms).ready()));
        }
        let moved = self.agent.try_apply(d);
        if moved {
            self.treasure.propagate(d);
        }
        let ghost a1 = self.agent;
        let ghost t1 = self.treasure;
        proof {
            assert(a1 == old(self).spec_tick_state(input, dt_ms).agent.spec_set_scale(s0.agent.scale));
            assert(t1 == if accepts(s0.agent.position, d) {
                spec_propagated(s0.treasure, d)
            } else {
                s0.treasure
            });
        }

        if input.confirm {
            let ev = self.treasure.on_trigger(self.agent.position, self.agent.reach, AGENT_ID);
            proof {
                if self.treasure.attached() && !t1.attached() {
                    lemma_within_reach_componentwise(
                        a1.position,
                        t1.position,
                        a1.reach as int,
                    );
                }
            }
            if let Some(e) = ev {
                events.push(e);
            }
        }
        proof {
            assert(self.treasure == old(self).spec_tick_state(input, dt_ms).treasure);
            assert(events@ =~= opt_seq(
                if input.confirm {
                    toggle_event(t1, a1.position, s0.agent.reach as int)
                } else {
                    None
                },
            ));
        }

        if input.roar {
            let ev = self.roar.trigger();
            if let Some(e) = ev {
                events.push(e);
            }
        }
        let ev = self.roar.tick(dt_ms);
        if let Some(e) = ev {
            events.push(e);
        }
        proof {
            assert(self.roar == old(self).spec_tick_state(input, dt_ms).roar);
        }

        self.agent.scale = if self.roar.active {
            SCALE_ROARING
        } else {
            SCALE_NORMAL
        };

        proof {
            assert(*self == old(self).spec_tick_state(input, dt_ms));
            assert(events@ =~= old(self).spec_tick_events(input, dt_ms));
        }
        events
    }

    /// The screen transforms of every tracked entity, camera-relative to
    /// the agent: the background and the treasure at their world positions
    /// minus the agent's, the agent pinned at the viewport origin with its
    /// current scale.
    pub fn render_transforms(&self) -> (v: Vec<ScreenTransform>)
        requires
            self.wf(),
        ensures
            v@ =~= self.spec_render(),
    {
        let mut v: Vec<ScreenTransform> = Vec::new();
        let landscape_world = Vec3 { x: 0, y: 0, z: Z_LANDSCAPE };
        let lp = project(&landscape_world, &self.agent.position);
        v.push(ScreenTransform { entity: LANDSCAPE_ID, position: lp, scale: SCALE_NORMAL });
        let tp = project(&self.treasure.position, &self.agent.position);
        v.push(ScreenTransform { entity: TREASURE_ID, position: tp, scale: SCALE_NORMAL });
        let ap = project_agent(&self.agent.position);
        v.push(ScreenTransform { entity: AGENT_ID, position: ap, scale: self.agent.scale });
        v
    }

    /// The transforms `render_transforms` computes: background, treasure,
    /// then agent.
    pub open spec fn spec_render(self) -> Seq<ScreenTransform> {
        seq![
            ScreenTransform {
                entity: LANDSCAPE_ID,
                position: Vec3 {
                    x: (0 - self.agent.position.x) as i64,
                    y: (0 - self.agent.position.y) as i64,
                    z: Z_LANDSCAPE,
                },
                scale: SCALE_NORMAL,
            },
            ScreenTransform {
                entity: TREASURE_ID,
                position: Vec3 {
                    x: (self.treasure.position.x - self.agent.position.x) as i64,
                    y: (self.treasure.position.y - self.agent.position.y) as i64,
                    z: self.treasure.position.z,
                },
                scale: SCALE_NORMAL,
            },
            ScreenTransform {
                entity: AGENT_ID,
                position: Vec3 { x: 0, y: 0, z: self.agent.position.z },
                scale: self.agent.scale,
            },
        ]
    }
}

/// Attachment propagation across a whole tick: while the treasure starts
/// the tick carried, its planar position changes by exactly the agent's
/// displacement this tick — even on the tick that drops it, since a drop
/// never moves it.
pub proof fn lemma_carried_moves_in_lockstep(s: Simulation, input: InputState, dt_ms: u64)
    requires
        s.wf(),
        s.treasure.attached(),
    ensures
        ({
            let s1 = s.spec_tick_state(input, dt_ms);
            &&& s1.treasure.position.x - s.treasure.position.x == s1.agent.position.x
                - s.agent.position.x
            &&& s1.treasure.position.y - s.treasure.position.y == s1.agent.position.y
                - s.agent.position.y
        }),
{
}

/// The counterpart: while the treasure starts the tick free, its planar
/// position is unchanged by the tick, regardless of agent movement — a
/// pickup on the same tick raises only its layer.
pub proof fn lemma_free_treasure_stays_put(s: Simulation, input: InputState, dt_ms: u64)
    requires
        s.wf(),
        !s.treasure.attached(),
    ensures
        s.spec_tick_state(input, dt_ms).treasure.position.x == s.treasure.position.x,
        s.spec_tick_state(input, dt_ms).treasure.position.y == s.treasure.position.y,
{
}

} // verus!
