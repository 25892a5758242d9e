//! The attachable treasure: a world position and an optional carried-by
//! relation. A trigger edge toggles the relation — picking up only when
//! the agent is within reach (boundary-inclusive), dropping
//! unconditionally — and while carried the treasure mirrors every agent
//! displacement exactly.

use vstd::prelude::*;

use crate::config::{REACH_MAX, Z_TREASURE_CARRIED, Z_TREASURE_FREE};
use crate::events::Event;
use crate::vecmath::{within_reach, Vec2, Vec3};

verus! {

/// Identity of a spawned entity, as the presentation layer keys them.
pub type EntityId = u64;

/// An entity that can be picked up and then moves in lock-step with its
/// carrier.
#[derive(Clone, Copy, PartialEq, Eq, Structural, Debug)]
pub struct Attachable {
    /// World position; `z` is the draw-order layer.
    pub position: Vec3,
    /// `None` while free-standing; `Some(agent)` while carried. A weak
    /// relation, never ownership.
    pub carried_by: Option<EntityId>,
}

/// The attachable after one trigger edge: a carried one is freed, a free
/// one becomes carried by `agent_id` exactly when the agent is within
/// reach; the planar position never changes.
pub open spec fn spec_toggled(t: Attachable, agent_pos: Vec3, reach: int, agent_id: EntityId) -> Attachable {
    if t.attached() {
        Attachable {
            position: Vec3 { x: t.position.x, y: t.position.y, z: Z_TREASURE_FREE },
            carried_by: None,
        }
    } else if within_reach(agent_pos, t.position, reach) {
        Attachable {
            position: Vec3 { x: t.position.x, y: t.position.y, z: Z_TREASURE_CARRIED },
            carried_by: Some(agent_id),
        }
    } else {
        t
    }
}

/// The event one trigger edge emits: `Dropped` from carried, `PickedUp`
/// from free within reach, none otherwise.
pub open spec fn toggle_event(t: Attachable, agent_pos: Vec3, reach: int) -> Option<Event> {
    if t.attached() {
        Some(Event::Dropped)
    } else if within_reach(agent_pos, t.position, reach) {
        Some(Event::PickedUp)
    } else {
        None
    }
}

/// The attachable after one tick's displacement `d`: shifted by exactly
/// `d` while carried, untouched while free.
pub open spec fn spec_propagated(t: Attachable, d: Vec2) -> Attachable {
    if t.attached() {
        Attachable {
            position: Vec3 {
                x: (t.position.x + d.x) as i64,
                y: (t.position.y + d.y) as i64,
                z: t.position.z,
            },
            carried_by: t.carried_by,
        }
    } else {
        t
    }
}

impl Attachable {
    /// The attachment relation is present.
    pub open spec fn attached(self) -> bool {
        self.carried_by.is_some()
    }

    /// The draw-order layer always reflects the attachment state: raised
    /// while carried, lowered while free.
    pub open spec fn wf(self) -> bool {
        self.position.z == if self.attached() {
            Z_TREASURE_CARRIED as int
        } else {
            Z_TREASURE_FREE as int
        }
    }

    /// A free-standing attachable at `position`.
    pub fn new(position: Vec3) -> (r: Attachable)
        requires
            position.z == Z_TREASURE_FREE,
        ensures
            r.wf(),
            r.position == position,
            r.carried_by == None::<EntityId>,
    {
        Attachable { position, carried_by: None }
    }

    /// Handles one rising edge of the pickup/drop trigger.
    ///
    /// Free and the agent within reach (planar distance at most `reach`,
    /// inclusive): becomes carried by `agent_id`, is raised to the carried
    /// layer, and emits `PickedUp`. Free but out of reach: a no-op with no
    /// event. Carried: becomes free unconditionally — no distance check —
    /// is lowered to the free layer, and emits `Dropped`. The planar
    /// position never changes here.
    pub fn on_trigger(&mut self, agent_position: Vec3, reach: i64, agent_id: EntityId) -> (ev: Option<
        Event,
    >)
        requires
            old(self).wf(),
            0 <= reach <= REACH_MAX,
            agent_position.coords_small(),
            old(self).position.coords_small(),
        ensures
            final(self).wf(),
            *final(self) == spec_toggled(*old(self), agent_position, reach as int, agent_id),
            ev == toggle_event(*old(self), agent_position, reach as int),
            final(self).position.x == old(self).position.x,
            final(self).position.y == old(self).position.y,
            !old(self).attached() && within_reach(agent_position, old(self).position, reach as int)
                ==> {
                &&& final(self).carried_by == Some(agent_id)
                &&& final(self).position.z == Z_TREASURE_CARRIED
                &&& ev == Some(Event::PickedUp)
            },
            !old(self).attached() && !within_reach(agent_position, old(self).position, reach as int)
                ==> {
                &&& *final(self) == *old(self)
                &&& ev == None::<Event>
            },
            old(self).attached() ==> {
                &&& final(self).carried_by == None::<EntityId>
                &&& final(self).position.z == Z_TREASURE_FREE
                &&& ev == Some(Event::Dropped)
            },
    {
        match self.carried_by {
            None => {
                let d2 = crate::vecmath::dist_sq_xy(&agent_position, &self.position);
                proof {
                    assert(reach * reach <= 1000000000000) by (nonlinear_arith)
                        requires
                            0 <= reach <= 1000000,
                    ;
                }
                if d2 <= reach * reach {
                    self.carried_by = Some(agent_id);
                    self.position.z = Z_TREASURE_CARRIED;
                    Some(Event::PickedUp)
                } else {
                    None
                }
            },
            Some(_carrier) => {
                self.carried_by = None;
                self.position.z = Z_TREASURE_FREE;
                Some(Event::Dropped)
            },
        }
    }

    /// Mirrors this tick's agent displacement onto a carried attachable:
    /// while carried the position changes by exactly `d`; while free it is
    /// untouched regardless of agent movement. The relation and the layer
    /// never change here.
    pub fn propagate(&mut self, d: Vec2)
        requires
            old(self).wf(),
            i64::MIN <= old(self).position.x + d.x <= i64::MAX,
            i64::MIN <= old(self).position.y + d.y <= i64::MAX,
        ensures
            final(self).wf(),
            *final(self) == spec_propagated(*old(self), d),
            final(self).carried_by == old(self).carried_by,
            old(self).attached() ==> {
                &&& final(self).position.x == old(self).position.x + d.x
                &&& final(self).position.y == old(self).position.y + d.y
                &&& final(self).position.z == old(self).position.z
            },
            !old(self).attached() ==> *final(self) == *old(self),
    {
        if self.carried_by.is_some() {
            self.position = self.position.translated(d);
        }
    }
}

} // verus!
