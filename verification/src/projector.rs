//! Camera-relative projection: every entity except the agent is drawn at
//! its world position minus the agent's world position, while the agent is
//! pinned at the viewport origin. The projector is deliberately stateless
//! and idempotent — no drift accumulation — so entities with unchanged
//! world positions still reproject correctly when the frame of reference
//! moves.

use vstd::prelude::*;

use crate::vecmath::Vec3;

verus! {

/// Screen x of an entity at world position `w` seen from an agent at `a`.
pub open spec fn spec_project_x(w: Vec3, a: Vec3) -> int {
    w.x - a.x
}

/// Screen y of an entity at world position `w` seen from an agent at `a`.
pub open spec fn spec_project_y(w: Vec3, a: Vec3) -> int {
    w.y - a.y
}

/// Projects a world position into screen coordinates anchored on the
/// agent: `world - agent` on the plane, with the draw-order layer kept.
pub fn project(world: &Vec3, agent: &Vec3) -> (r: Vec3)
    requires
        i64::MIN <= world.x - agent.x <= i64::MAX,
        i64::MIN <= world.y - agent.y <= i64::MAX,
    ensures
        r.x == spec_project_x(*world, *agent),
        r.y == spec_project_y(*world, *agent),
        r.z == world.z,
{
    Vec3 { x: world.x - agent.x, y: world.y - agent.y, z: world.z }
}

/// The agent's own screen position: the fixed viewport anchor (the
/// origin), with its draw-order layer kept.
pub fn project_agent(agent: &Vec3) -> (r: Vec3)
    ensures
        r.x == 0,
        r.y == 0,
        r.z == agent.z,
{
    Vec3 { x: 0, y: 0, z: agent.z }
}

/// Idempotence: projecting the same pair `(w, a)` twice yields identical
/// results — any two values meeting `project`'s contract for the same
/// inputs are equal.
pub proof fn lemma_project_idempotent(w: Vec3, a: Vec3, r1: Vec3, r2: Vec3)
    requires
        r1.x == spec_project_x(w, a) && r1.y == spec_project_y(w, a) && r1.z == w.z,
        r2.x == spec_project_x(w, a) && r2.y == spec_project_y(w, a) && r2.z == w.z,
    ensures
        r1 == r2,
{
}

/// Linearity: for any two world positions seen from the same agent, the
/// difference of their projections equals the difference of the world
/// positions.
pub proof fn lemma_project_linear(w1: Vec3, w2: Vec3, a: Vec3)
    ensures
        spec_project_x(w1, a) - spec_project_x(w2, a) == w1.x - w2.x,
        spec_project_y(w1, a) - spec_project_y(w2, a) == w1.y - w2.y,
{
}

} // verus!
