//! Simulation core of a small arcade game: a player steers a sprite through a
//! walled arena, collecting charged particles that are drawn to it or flee
//! from it, until the session's time runs out.
//!
//! Everything here is integer arithmetic on sub-pixel units, advanced in
//! fixed ticks, so a session is fully determined by its configuration, its
//! seed and the inputs it is fed.

pub mod constants;
pub mod geometry;
pub mod motion;
pub mod walls;
pub mod rng;
pub mod sprite;
pub mod player;
pub mod particle;
pub mod pool;
pub mod config;
pub mod swarm;
pub mod game;
