//! Verified core of a small tick-driven simulation: a single agent moves
//! across a bounded 2D world, can attach and detach a treasure when within
//! reach, and can trigger a timed roar state. The world is rendered
//! camera-relative: the agent is pinned at the viewport origin and every
//! other entity is drawn at its world position minus the agent's.
//!
//! Coordinates are integer world units and times are integer milliseconds,
//! so every rule of the simulation is stated and proved exactly.

pub mod agent;
pub mod attachable;
pub mod config;
pub mod cooldown;
pub mod events;
pub mod input;
pub mod projector;
pub mod simulation;
pub mod timed_state;
pub mod vecmath;
