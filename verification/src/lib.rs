//! A boid flocking simulation with pursuing predators.
//!
//! A swarm of boid agents follows the classic separation / alignment /
//! cohesion rules while a handful of predator agents acquire targets,
//! steer along pursuit curves and capture boids.  All simulation state is
//! held in fixed-point integer coordinates: positions and velocities are
//! plain `i64` values, and behaviour factors are fractions expressed in
//! units of [`FACTOR_UNIT`].  Every kernel is a pure function of the
//! pre-pass snapshot, so a pass is deterministic and independent of the
//! order in which agents are visited.

use vstd::prelude::*;

pub mod flocking;
pub mod frame;
pub mod init;
pub mod params;
pub mod pursuit;
pub mod store;
pub mod vecmath;

verus! {

/// Scale of fractional behaviour factors: a factor of `FACTOR_UNIT`
/// means 1.0, a factor of `FACTOR_UNIT / 2` means 0.5, and so on.
pub const FACTOR_UNIT: i64 = 1_000_000;

/// Largest magnitude a position or velocity component may take.
/// Position integration saturates at this bound.
pub const COORD_LIMIT: i64 = 1_000_000_000_000;

/// Largest magnitude a behaviour parameter may take.
pub const PARAM_LIMIT: i64 = 1_000_000_000;

/// Largest number of agents of one class a store may hold.
pub const MAX_AGENTS: usize = 65536;

/// Sentinel pursuit-target index meaning "no target".
pub const NO_TARGET: u32 = 0xFFFF_FFFF;

/// Reference boid population.
pub const NUM_BOIDS: usize = 255;

/// Reference predator population.
pub const NUM_PREDATORS: usize = 4;

} // verus!
