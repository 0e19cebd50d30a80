//! The configuration of a game and the rules it must satisfy.

use vstd::prelude::*;
use crate::constants::{INITIAL_PARTICLES, MIN_PARTICLES, SESSION_TICKS};
use crate::geometry::Vec2;
use crate::particle::Particle;
use crate::sprite::{EntityKind, SpriteInfo};
use crate::walls::Arena;

verus! {

/// Largest number of particles a session may start with.
pub const MAX_PARTICLES: usize = 4096;

/// Everything that is fixed before a game starts.
#[derive(Clone, Copy, Debug, PartialEq, Eq, Structural)]
pub struct GameConfig {
    /// The dimensions of the arena.
    pub arena: Arena,
    /// The sprite sizes, from which the bodies are sized.
    pub sprites: SpriteInfo,
    /// Number of particles placed when a session starts.
    pub initial_particles: usize,
    /// Population below which a collected particle is replaced at once.
    pub min_particles: usize,
    /// Length of a session, in ticks.
    pub session_ticks: u32,
}

/// Why a configuration was refused.
#[derive(Clone, Copy, Debug, PartialEq, Eq, Structural)]
pub enum ConfigError {
    /// The arena's dimensions are not well-formed.
    Arena,
    /// The player's sprite is empty, too large, or does not fit the arena.
    PlayerSprite,
    /// The particles' sprite is empty, too large, or does not fit the arena.
    ParticleSprite,
    /// The minimum population exceeds the initial one, or the initial one
    /// exceeds `MAX_PARTICLES`.
    Population,
    /// The session lasts no tick at all.
    SessionLength,
}

impl GameConfig {
    /// The half-extent of the player's body.
    pub open spec fn player_half(self) -> Vec2 {
        self.sprites.size_of(EntityKind::Player).half_extent_of()
    }

    /// The half-extent of a particle's body.
    pub open spec fn particle_half(self) -> Vec2 {
        self.sprites.size_of(EntityKind::Particle).half_extent_of()
    }

    /// The first rule that the configuration breaks, if any.
    pub open spec fn check(self) -> Result<(), ConfigError> {
        if !self.arena.wf() {
            Err(ConfigError::Arena)
        } else if !(self.sprites.player.wf() && self.arena.fits(self.player_half())) {
            Err(ConfigError::PlayerSprite)
        } else if !(self.sprites.particle.wf() && self.arena.fits(self.particle_half())) {
            Err(ConfigError::ParticleSprite)
        } else if !(self.min_particles <= self.initial_particles <= MAX_PARTICLES) {
            Err(ConfigError::Population)
        } else if self.session_ticks == 0 {
            Err(ConfigError::SessionLength)
        } else {
            Ok(())
        }
    }

    /// The configuration breaks no rule.
    pub open spec fn wf(self) -> bool {
        &&& self.arena.wf()
        &&& self.sprites.player.wf()
        &&& self.arena.fits(self.player_half())
        &&& self.sprites.particle.wf()
        &&& self.arena.fits(self.particle_half())
        &&& self.min_particles <= self.initial_particles <= MAX_PARTICLES
        &&& self.session_ticks > 0
    }

    /// Whether `p` may be a particle of a session: it has the extent of the
    /// particles' sprite, a speed within the limit, and lies inside the arena.
    pub open spec fn admits(self, p: Particle) -> bool {
        &&& p.wf()
        &&& p.body.half == self.particle_half()
        &&& self.arena.inside(p.body)
    }

    /// Whether every particle in `slots` may be a particle of a session.
    pub open spec fn admits_all(self, slots: Seq<Option<Particle>>) -> bool {
        forall|h: int|
            0 <= h < slots.len() ==> match #[trigger] slots[h] {
                Some(p) => self.admits(p),
                None => true,
            }
    }

    /// The standard configuration for the given sprites.
    pub open spec fn standard_for(sprites: SpriteInfo) -> GameConfig {
        GameConfig {
            arena: Arena::standard_arena(),
            sprites,
            initial_particles: INITIAL_PARTICLES,
            min_particles: MIN_PARTICLES,
            session_ticks: SESSION_TICKS,
        }
    }

    /// Returns the standard configuration for the given sprites.
    pub fn standard(sprites: SpriteInfo) -> (c: GameConfig)
        ensures
            c == GameConfig::standard_for(sprites),
    {
        GameConfig {
            arena: Arena::standard(),
            sprites,
            initial_particles: INITIAL_PARTICLES,
            min_particles: MIN_PARTICLES,
            session_ticks: SESSION_TICKS,
        }
    }

    /// Checks the configuration against its rules and reports the first one
    /// that it breaks.
    pub fn validate(&self) -> (r: Result<(), ConfigError>)
        ensures
            r == self.check(),
            r is Ok <==> self.wf(),
    {
        if !self.arena.is_valid() {
            return Err(ConfigError::Arena);
        }
        let player = self.sprites.size(EntityKind::Player);
        if !player.is_valid() {
            return Err(ConfigError::PlayerSprite);
        }
        let player = player.half_extent();
        if player.x > self.arena.interior_half_width() || player.y
            > self.arena.interior_half_height() {
            return Err(ConfigError::PlayerSprite);
        }
        let particle = self.sprites.size(EntityKind::Particle);
        if !particle.is_valid() {
            return Err(ConfigError::ParticleSprite);
        }
        let particle = particle.half_extent();
        if particle.x > self.arena.interior_half_width() || particle.y
            > self.arena.interior_half_height() {
            return Err(ConfigError::ParticleSprite);
        }
        if self.min_particles > self.initial_particles || self.initial_particles > MAX_PARTICLES {
            return Err(ConfigError::Population);
        }
        if self.session_ticks == 0 {
            return Err(ConfigError::SessionLength);
        }
        Ok(())
    }
}

} // verus!
