//! Session constants: world extent, movement step and cooldown, reach,
//! roar duration, draw-order layers, and the fixed entity identities.

use vstd::prelude::*;

verus! {

/// Half-extent of the world along x: the agent's x stays in
/// `[-BOUNDARY_X, BOUNDARY_X]`.
pub const BOUNDARY_X: i64 = 720;

/// Half-extent of the world along y: the agent's y stays in
/// `[-BOUNDARY_Y, BOUNDARY_Y]`.
pub const BOUNDARY_Y: i64 = 1520;

/// Distance covered along one axis by one accepted movement step.
pub const MOVE_STEP: i64 = 15;

/// Minimum interval between two accepted movement steps.
pub const MOVE_COOLDOWN_MS: u64 = 100;

/// Default attachment reach of the agent.
pub const AGENT_REACH: i64 = 100;

/// Upper limit on an agent's reach; keeps every derived coordinate small
/// enough that squared distances fit in `i64`.
pub const REACH_MAX: i64 = 1000000;

/// Full duration of the roar state.
pub const ROAR_MS: u64 = 3000;

/// Visual scale of the agent while idle.
pub const SCALE_NORMAL: i64 = 1;

/// Visual scale of the agent while the roar state is active.
pub const SCALE_ROARING: i64 = 2;

/// Draw-order layer of the background.
pub const Z_LANDSCAPE: i64 = 0;

/// Draw-order layer of the treasure while free-standing.
pub const Z_TREASURE_FREE: i64 = 1;

/// Draw-order layer of the agent.
pub const Z_AGENT: i64 = 2;

/// Draw-order layer of the treasure while carried (raised above the agent).
pub const Z_TREASURE_CARRIED: i64 = 3;

/// Magnitude bound on coordinates fed to the distance computation, so that
/// differences and squares fit in `i64`.
pub const COORD_LIMIT: i64 = 1000000000;

/// Entity identity of the agent.
pub const AGENT_ID: u64 = 1;

/// Entity identity of the treasure.
pub const TREASURE_ID: u64 = 2;

/// Entity identity of the background landscape.
pub const LANDSCAPE_ID: u64 = 3;

/// Configured start x of the agent.
pub const AGENT_START_X: i64 = 0;

/// Configured start y of the agent.
pub const AGENT_START_Y: i64 = 0;

/// Configured start x of the treasure.
pub const TREASURE_START_X: i64 = -500;

/// Configured start y of the treasure.
pub const TREASURE_START_Y: i64 = -1000;

} // verus!
