//! Sprite dimensions, from which the bodies of player and particles are
//! sized so that collisions match what is drawn.

use vstd::prelude::*;
use crate::geometry::Vec2;

verus! {

/// Largest width or height of a sprite image, in pixels.
pub const MAX_SPRITE: u32 = 100_000;

/// Units of half-extent per pixel of the image: a sprite is drawn at half
/// its pixel size, and a half-extent is half of that again.
pub const HALF_EXTENT_PER_PIXEL: i32 = 250;

/// The kinds of entity that have a sprite.
#[derive(Clone, Copy, Debug, PartialEq, Eq, Structural)]
pub enum EntityKind {
    Player,
    Particle,
}

/// The pixel dimensions of a sprite image.
#[derive(Clone, Copy, Debug, PartialEq, Eq, Structural)]
pub struct SpriteSize {
    pub width: u32,
    pub height: u32,
}

/// The sprite of each kind of entity.
#[derive(Clone, Copy, Debug, PartialEq, Eq, Structural)]
pub struct SpriteInfo {
    pub player: SpriteSize,
    pub particle: SpriteSize,
}

impl SpriteSize {
    /// The image is not empty and not larger than `MAX_SPRITE`.
    pub open spec fn wf(self) -> bool {
        0 < self.width <= MAX_SPRITE && 0 < self.height <= MAX_SPRITE
    }

    /// The half-extent of a body that matches the sprite as drawn.
    pub open spec fn half_extent_of(self) -> Vec2 {
        Vec2 {
            x: (self.width * HALF_EXTENT_PER_PIXEL) as i32,
            y: (self.height * HALF_EXTENT_PER_PIXEL) as i32,
        }
    }

    /// Tells whether the size is well-formed.
    pub fn is_valid(&self) -> (r: bool)
        ensures
            r == self.wf(),
    {
        0 < self.width && self.width <= MAX_SPRITE && 0 < self.height && self.height
            <= MAX_SPRITE
    }

    /// Computes the half-extent of a body that matches the sprite as drawn.
    pub fn half_extent(&self) -> (h: Vec2)
        requires
            self.wf(),
        ensures
            h == self.half_extent_of(),
    {
        Vec2 {
            x: self.width as i32 * HALF_EXTENT_PER_PIXEL,
            y: self.height as i32 * HALF_EXTENT_PER_PIXEL,
        }
    }
}

impl SpriteInfo {
    /// The size of the sprite of the given kind.
    pub open spec fn size_of(self, kind: EntityKind) -> SpriteSize {
        match kind {
            EntityKind::Player => self.player,
            EntityKind::Particle => self.particle,
        }
    }

    /// Returns the size of the sprite of the given kind.
    pub fn size(&self, kind: EntityKind) -> (s: SpriteSize)
        ensures
            s == self.size_of(kind),
    {
        match kind {
            EntityKind::Player => self.player,
            EntityKind::Particle => self.particle,
        }
    }
}

/// A pixel of the image covers `UNITS_PER_PIXEL / SCALE_DIVISOR` units as
/// drawn, and half of that per pixel goes into the half-extent.
pub proof fn lemma_half_extent_scale()
    ensures
        HALF_EXTENT_PER_PIXEL * 2 * crate::constants::SCALE_DIVISOR
            == crate::constants::UNITS_PER_PIXEL,
{
}

} // verus!
