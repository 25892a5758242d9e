//! The single controllable agent: world position, attachment reach,
//! movement cooldown, and visual scale. Movement is a fixed-magnitude step
//! per held directional key (diagonals sum, not renormalized) and the whole
//! displacement is accepted or rejected atomically against the world
//! boundary — no per-axis clamping or sliding.

use vstd::prelude::*;

use crate::config::{BOUNDARY_X, BOUNDARY_Y, MOVE_COOLDOWN_MS, MOVE_STEP, REACH_MAX, SCALE_NORMAL};
use crate::cooldown::Cooldown;
use crate::input::InputState;
use crate::vecmath::{Vec2, Vec3};

verus! {

/// The position lies inside the bounded world.
pub open spec fn in_bounds(p: Vec3) -> bool {
    &&& -BOUNDARY_X <= p.x <= BOUNDARY_X
    &&& -BOUNDARY_Y <= p.y <= BOUNDARY_Y
}

/// The planar point `(x, y)` lies inside the bounded world.
pub open spec fn in_bounds_xy(x: int, y: int) -> bool {
    &&& -BOUNDARY_X <= x <= BOUNDARY_X
    &&& -BOUNDARY_Y <= y <= BOUNDARY_Y
}

/// Net step along x from the held directional keys.
pub open spec fn step_x(input: InputState) -> int {
    (if input.right { MOVE_STEP as int } else { 0 }) - (if input.left { MOVE_STEP as int } else { 0 })
}

/// Net step along y from the held directional keys.
pub open spec fn step_y(input: InputState) -> int {
    (if input.up { MOVE_STEP as int } else { 0 }) - (if input.down { MOVE_STEP as int } else { 0 })
}

/// The displacement intended this tick: the summed directional steps when
/// the movement cooldown is ready, and zero otherwise.
pub open spec fn spec_displacement(input: InputState, ready: bool) -> Vec2 {
    if ready {
        Vec2 { x: step_x(input) as i64, y: step_y(input) as i64 }
    } else {
        Vec2 { x: 0, y: 0 }
    }
}

/// A displacement is accepted from a position exactly when it is nonzero
/// and the whole shifted position stays inside the world.
pub open spec fn accepts(p: Vec3, d: Vec2) -> bool {
    !d.is_zero() && in_bounds_xy(p.x + d.x, p.y + d.y)
}

/// The player-controlled entity.
#[derive(Clone, Copy, PartialEq, Eq, Structural, Debug)]
pub struct Agent {
    /// World position; `z` is the draw-order layer.
    pub position: Vec3,
    /// Maximum distance at which an attachment may be formed.
    pub reach: i64,
    /// Timer enforcing the minimum interval between accepted moves.
    pub move_cooldown: Cooldown,
    /// Visual scale multiplier, mutated only by the roar state.
    pub scale: i64,
}

impl Agent {
    /// The same agent with its visual scale replaced.
    pub open spec fn spec_set_scale(self, scale: i64) -> Agent {
        Agent { position: self.position, reach: self.reach, move_cooldown: self.move_cooldown, scale }
    }

    /// The position is in bounds, the reach is a small non-negative
    /// distance, and the cooldown is well formed.
    pub open spec fn wf(self) -> bool {
        &&& in_bounds(self.position)
        &&& 0 <= self.reach <= REACH_MAX
        &&& self.move_cooldown.wf()
    }

    /// A fresh agent at `position`: normal scale, movement cooldown started so
    /// the first step waits out one full cooldown interval.
    pub fn new(position: Vec3, reach: i64) -> (r: Agent)
        requires
            in_bounds(position),
            0 <= reach <= REACH_MAX,
        ensures
            r.wf(),
            r.position == position,
            r.reach == reach,
            r.scale == SCALE_NORMAL,
            r.move_cooldown.duration_ms == MOVE_COOLDOWN_MS,
            r.move_cooldown.elapsed_ms == 0,
    {
        Agent {
            position,
            reach,
            move_cooldown: Cooldown::new(MOVE_COOLDOWN_MS),
            scale: SCALE_NORMAL,
        }
    }

    /// Advances the movement cooldown by `dt_ms`; nothing else changes.
    pub fn advance_cooldown(&mut self, dt_ms: u64) -> (ready: bool)
        requires
            old(self).wf(),
        ensures
            final(self).wf(),
            final(self).move_cooldown == old(self).move_cooldown.spec_ticked(dt_ms),
            final(self).position == old(self).position,
            final(self).reach == old(self).reach,
            final(self).scale == old(self).scale,
            ready == final(self).move_cooldown.ready(),
    {
        self.move_cooldown.tick(dt_ms)
    }

    /// The displacement intended from the held keys this tick: one
    /// `MOVE_STEP` per held direction, opposite directions cancelling, and
    /// the zero vector whenever the movement cooldown is not ready.
    pub fn compute_displacement(&self, input: &InputState) -> (d: Vec2)
        ensures
            d == spec_displacement(*input, self.move_cooldown.ready()),
            -MOVE_STEP <= d.x <= MOVE_STEP,
            -MOVE_STEP <= d.y <= MOVE_STEP,
    {
        if !self.move_cooldown.is_ready() {
            return Vec2 { x: 0, y: 0 };
        }
        let mut x: i64 = 0;
        let mut y: i64 = 0;
        if input.right {
            x = x + MOVE_STEP;
        }
        if input.left {
            x = x - MOVE_STEP;
        }
        if input.up {
            y = y + MOVE_STEP;
        }
        if input.down {
            y = y - MOVE_STEP;
        }
        Vec2 { x, y }
    }

    /// Attempts to move by `d`. The move is accepted exactly when `d` is
    /// nonzero and the entire shifted position stays in bounds; then the
    /// position becomes exactly `position + d` and the movement cooldown is
    /// started over. A rejected move leaves the agent completely unchanged —
    /// never a partial or clamped position.
    pub fn try_apply(&mut self, d: Vec2) -> (moved: bool)
        requires
            old(self).wf(),
            i64::MIN <= old(self).position.x + d.x <= i64::MAX,
            i64::MIN <= old(self).position.y + d.y <= i64::MAX,
        ensures
            final(self).wf(),
            moved == accepts(old(self).position, d),
            moved ==> {
                &&& final(self).position.x == old(self).position.x + d.x
                &&& final(self).position.y == old(self).position.y + d.y
                &&& final(self).position.z == old(self).position.z
                &&& final(self).move_cooldown.duration_ms == old(self).move_cooldown.duration_ms
                &&& final(self).move_cooldown.elapsed_ms == 0
            },
            !moved ==> *final(self) == *old(self),
            final(self).reach == old(self).reach,
            final(self).scale == old(self).scale,
    {
        let next = self.position.translated(d);
        if !d.eq_zero() && next.x <= BOUNDARY_X && next.x >= -BOUNDARY_X && next.y <= BOUNDARY_Y
            && next.y >= -BOUNDARY_Y {
            self.move_cooldown.reset();
            self.position = next;
            true
        } else {
            false
        }
    }
}

} // verus!
