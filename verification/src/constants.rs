//! Compile-time configuration: screen size, time step, scale and speeds.
//!
//! Lengths inside the simulation are measured in sub-pixel *units*;
//! velocities in units per second.

use vstd::prelude::*;

verus! {

/// Length units per screen pixel.
pub const UNITS_PER_PIXEL: i32 = 1000;

/// Simulation ticks per second; one tick lasts `1 / TICKS_PER_SECOND` seconds.
pub const TICKS_PER_SECOND: i32 = 60;

/// Width of the window, in pixels.
pub const SCREEN_WIDTH: i32 = 600;

/// Height of the window, in pixels.
pub const SCREEN_HEIGHT: i32 = 500;

/// Sprites are drawn, and their bodies sized, at `1 / SCALE_DIVISOR` of the
/// image's pixel dimensions.
pub const SCALE_DIVISOR: i32 = 2;

/// Gap between the window's edge and the inner face of each wall, in pixels.
pub const WALL_MARGIN: i32 = 10;

/// Thickness of a wall, in pixels.
pub const WALL_THICKNESS: i32 = 10;

/// Speed of the player along one axis while a single direction is held.
pub const PLAYER_SPEED: i32 = 240_000;

/// Speed of the player along each axis while two directions are held:
/// the largest value whose diagonal does not exceed `PLAYER_SPEED`.
pub const PLAYER_DIAGONAL_SPEED: i32 = 169_705;

/// Largest speed of a particle along either axis.
pub const PARTICLE_MAX_SPEED: i32 = 180_000;

/// Change of a particle's velocity along each axis per tick.
pub const PARTICLE_ACCELERATION: i32 = 3_000;

/// No body moves farther than this along one axis in one tick.
pub const MAX_STEP: i32 = 4_000;

/// Points awarded for each particle the player collects.
pub const PARTICLE_REWARD: u64 = 10;

/// Number of particles placed when a session starts.
pub const INITIAL_PARTICLES: usize = 12;

/// Population below which a collected particle is replaced at once.
pub const MIN_PARTICLES: usize = 8;

/// Length of a session, in ticks.
pub const SESSION_TICKS: u32 = 3_600;

/// How many rejected positions the spawn policy tolerates before it accepts
/// the next one unconditionally.
pub const SPAWN_RETRIES: u32 = 16;

} // verus!
