//! Particles: charged bodies that the player attracts or repels, that
//! bounce off the walls, and that the spawn policy places.

use vstd::prelude::*;
use crate::constants::{PARTICLE_ACCELERATION, PARTICLE_MAX_SPEED, SPAWN_RETRIES};
use crate::geometry::{intersects, overlaps, Body, Vec2};
use crate::motion::{displaced, displacement};
use crate::rng::{lcg_next, lcg_output, lcg_pick, Lcg};
use crate::walls::{Arena, Contact};

verus! {

/// The sign of a particle's charge relative to the player's.
#[derive(Clone, Copy, Debug, PartialEq, Eq, Structural)]
pub enum Charge {
    /// The particle is drawn toward the player.
    Attracting,
    /// The particle is driven away from the player.
    Repelling,
}

/// A particle: its body, its velocity and its charge.
#[derive(Clone, Copy, Debug, PartialEq, Eq, Structural)]
pub struct Particle {
    pub body: Body,
    pub velocity: Vec2,
    pub charge: Charge,
}

/// The change of velocity along one axis, within one tick, of a particle at
/// coordinate `from` while the player is at coordinate `toward`.
pub open spec fn pull(charge: Charge, from: int, toward: int) -> int {
    let nearer = if toward > from {
        PARTICLE_ACCELERATION as int
    } else if toward < from {
        -PARTICLE_ACCELERATION as int
    } else {
        0
    };
    match charge {
        Charge::Attracting => nearer,
        Charge::Repelling => -nearer,
    }
}

/// `v` limited to the range from `-PARTICLE_MAX_SPEED` to `PARTICLE_MAX_SPEED`.
pub open spec fn capped(v: int) -> int {
    if v > PARTICLE_MAX_SPEED {
        PARTICLE_MAX_SPEED as int
    } else if v < -PARTICLE_MAX_SPEED {
        -PARTICLE_MAX_SPEED as int
    } else {
        v
    }
}

/// `v` with the component reversed along each axis on which a wall was met.
pub open spec fn rebound(v: Vec2, contact: Contact) -> Vec2 {
    Vec2 {
        x: if contact.horizontal { (-v.x) as i32 } else { v.x },
        y: if contact.vertical { (-v.y) as i32 } else { v.y },
    }
}

/// The position that the generator in state `rng` proposes for a body of
/// half-extent `half`, anywhere that keeps the body inside the arena, and the
/// generator's state afterwards.
pub open spec fn candidate(arena: Arena, half: Vec2, rng: u64) -> (Vec2, u64) {
    let w = arena.half_width() - half.x;
    let h = arena.half_height() - half.y;
    let x = lcg_pick(rng, -w, w);
    let y = lcg_pick(lcg_next(rng), -h, h);
    (Vec2 { x: x as i32, y: y as i32 }, lcg_next(lcg_next(rng)))
}

/// The position that the spawn policy settles on, and the generator's state
/// afterwards: the first candidate whose body does not overlap `avoid`, or,
/// after `retries` rejected candidates, the next one whatever it overlaps.
pub open spec fn placement(arena: Arena, half: Vec2, avoid: Body, rng: u64, retries: nat) -> (
    Vec2,
    u64,
)
    decreases retries,
{
    let (c, next) = candidate(arena, half, rng);
    if retries == 0 || !intersects(Body { center: c, half }, avoid) {
        (c, next)
    } else {
        placement(arena, half, avoid, next, (retries - 1) as nat)
    }
}

/// Whether the first `retries + 1` candidates drawn from `rng` all overlap
/// `avoid`.
pub open spec fn exhausted(arena: Arena, half: Vec2, avoid: Body, rng: u64, retries: nat) -> bool
    decreases retries,
{
    let (c, next) = candidate(arena, half, rng);
    intersects(Body { center: c, half }, avoid) && (retries == 0 || exhausted(
        arena,
        half,
        avoid,
        next,
        (retries - 1) as nat,
    ))
}

/// The particle that the spawn policy creates, and the generator's state
/// afterwards: placed by `placement`, at rest, with a charge drawn last.
pub open spec fn fresh_particle(arena: Arena, half: Vec2, avoid: Body, rng: u64) -> (
    Particle,
    u64,
) {
    let (c, placed) = placement(arena, half, avoid, rng, SPAWN_RETRIES as nat);
    let last = lcg_next(placed);
    let charge = if lcg_output(last) % 2 == 0 {
        Charge::Attracting
    } else {
        Charge::Repelling
    };
    (Particle { body: Body { center: c, half }, velocity: Vec2 { x: 0, y: 0 }, charge }, last)
}

impl Particle {
    /// The body has a positive extent and the speed is within the limit.
    pub open spec fn wf(self) -> bool {
        &&& self.body.wf()
        &&& -PARTICLE_MAX_SPEED <= self.velocity.x <= PARTICLE_MAX_SPEED
        &&& -PARTICLE_MAX_SPEED <= self.velocity.y <= PARTICLE_MAX_SPEED
    }

    /// The velocity after the player, at `target`, has pulled or pushed for
    /// one tick, limited to the maximum speed.
    pub open spec fn steered(self, target: Vec2) -> Vec2 {
        Vec2 {
            x: capped(
                self.velocity.x + pull(self.charge, self.body.center.x as int, target.x as int),
            ) as i32,
            y: capped(
                self.velocity.y + pull(self.charge, self.body.center.y as int, target.y as int),
            ) as i32,
        }
    }

    /// The particle one tick later: its velocity is steered, it travels, and
    /// where it meets a wall it is put back against the wall's inner face and
    /// its velocity is reversed along that axis.
    pub open spec fn stepped(self, arena: Arena, target: Vec2) -> Particle {
        let v = self.steered(target);
        let moved = displaced(self.body, v);
        Particle {
            body: arena.clamped(moved),
            velocity: rebound(v, arena.contact(moved)),
            charge: self.charge,
        }
    }

    /// Computes the velocity after one tick of the player's influence.
    pub fn steer(&self, target: Vec2) -> (v: Vec2)
        ensures
            v == self.steered(target),
            -PARTICLE_MAX_SPEED <= v.x <= PARTICLE_MAX_SPEED,
            -PARTICLE_MAX_SPEED <= v.y <= PARTICLE_MAX_SPEED,
    {
        Vec2 {
            x: cap(self.velocity.x as i64 + tug(self.charge, self.body.center.x, target.x) as i64),
            y: cap(self.velocity.y as i64 + tug(self.charge, self.body.center.y, target.y) as i64),
        }
    }

    /// Advances the particle by one tick.
    pub fn step(&self, arena: &Arena, walls: &[Body; 4], target: Vec2) -> (p: Particle)
        requires
            arena.wf(),
            walls@ == arena.wall_bodies(),
            self.body.wf(),
            arena.inside(self.body),
        ensures
            p == self.stepped(*arena, target),
            p.wf(),
            arena.inside(p.body),
    {
        let v = self.steer(target);
        let moved = Body {
            center: Vec2 {
                x: self.body.center.x + displacement(v.x),
                y: self.body.center.y + displacement(v.y),
            },
            half: self.body.half,
        };
        let (body, contact) = arena.confine(walls, moved);
        let velocity = Vec2 {
            x: if contact.horizontal { -v.x } else { v.x },
            y: if contact.vertical { -v.y } else { v.y },
        };
        Particle { body, velocity, charge: self.charge }
    }
}

/// A particle inside the arena is inside it one tick later, with the same
/// extent and a speed within the limit.
pub proof fn lemma_stepped_stays_inside(p: Particle, arena: Arena, target: Vec2)
    requires
        arena.wf(),
        p.body.wf(),
        arena.inside(p.body),
    ensures
        p.stepped(arena, target).wf(),
        p.stepped(arena, target).body.half == p.body.half,
        p.stepped(arena, target).charge == p.charge,
        arena.inside(p.stepped(arena, target).body),
{
}

/// A particle that runs into a wall ends the tick against the wall's inner
/// face, with its velocity along that axis reversed so that it points back
/// into the arena; along an axis on which it meets no wall it travels freely.
pub proof fn lemma_bounce(p: Particle, arena: Arena, target: Vec2)
    requires
        arena.wf(),
        p.body.wf(),
        arena.inside(p.body),
    ensures
        ({
            let v = p.steered(target);
            let moved = displaced(p.body, v);
            let q = p.stepped(arena, target);
            &&& moved.min_x() < -arena.half_width() ==> q.body.min_x() == -arena.half_width()
                && q.velocity.x == -v.x && q.velocity.x > 0
            &&& moved.max_x() > arena.half_width() ==> q.body.max_x() == arena.half_width()
                && q.velocity.x == -v.x && q.velocity.x < 0
            &&& moved.min_y() < -arena.half_height() ==> q.body.min_y() == -arena.half_height()
                && q.velocity.y == -v.y && q.velocity.y > 0
            &&& moved.max_y() > arena.half_height() ==> q.body.max_y() == arena.half_height()
                && q.velocity.y == -v.y && q.velocity.y < 0
            &&& -arena.half_width() <= moved.min_x() && moved.max_x() <= arena.half_width()
                ==> q.body.center.x == moved.center.x && q.velocity.x == v.x
            &&& -arena.half_height() <= moved.min_y() && moved.max_y() <= arena.half_height()
                ==> q.body.center.y == moved.center.y && q.velocity.y == v.y
        }),
{
}

/// Wherever the spawn policy puts a body that fits the arena, the body is
/// inside the arena.
pub proof fn lemma_placement_inside(arena: Arena, half: Vec2, avoid: Body, rng: u64, retries: nat)
    requires
        arena.wf(),
        arena.fits(half),
    ensures
        arena.inside(Body { center: placement(arena, half, avoid, rng, retries).0, half }),
    decreases retries,
{
    let (c, next) = candidate(arena, half, rng);
    if retries == 0 || !intersects(Body { center: c, half }, avoid) {
    } else {
        lemma_placement_inside(arena, half, avoid, next, (retries - 1) as nat);
    }
}

/// If the spawn policy puts a body where it overlaps `avoid`, then every
/// candidate before it was rejected: the retries were exhausted.
pub proof fn lemma_placement_clear(arena: Arena, half: Vec2, avoid: Body, rng: u64, retries: nat)
    ensures
        ({
            let c = placement(arena, half, avoid, rng, retries).0;
            intersects(Body { center: c, half }, avoid) ==> exhausted(
                arena,
                half,
                avoid,
                rng,
                retries,
            )
        }),
    decreases retries,
{
    let (c, next) = candidate(arena, half, rng);
    if retries == 0 || !intersects(Body { center: c, half }, avoid) {
    } else {
        lemma_placement_clear(arena, half, avoid, next, (retries - 1) as nat);
    }
}

/// A particle made by the spawn policy is at rest inside the arena.
pub proof fn lemma_fresh_particle(arena: Arena, half: Vec2, avoid: Body, rng: u64)
    requires
        arena.wf(),
        arena.fits(half),
    ensures
        fresh_particle(arena, half, avoid, rng).0.wf(),
        fresh_particle(arena, half, avoid, rng).0.body.half == half,
        fresh_particle(arena, half, avoid, rng).0.velocity == (Vec2 { x: 0, y: 0 }),
        arena.inside(fresh_particle(arena, half, avoid, rng).0.body),
{
    lemma_placement_inside(arena, half, avoid, rng, SPAWN_RETRIES as nat);
}

/// Computes the change of velocity along one axis.
fn tug(charge: Charge, from: i32, toward: i32) -> (a: i32)
    ensures
        a == pull(charge, from as int, toward as int),
{
    let nearer: i32 = if toward > from {
        PARTICLE_ACCELERATION
    } else if toward < from {
        -PARTICLE_ACCELERATION
    } else {
        0
    };
    match charge {
        Charge::Attracting => nearer,
        Charge::Repelling => -nearer,
    }
}

/// Limits a speed to the maximum.
fn cap(v: i64) -> (c: i32)
    ensures
        c == capped(v as int),
{
    if v > PARTICLE_MAX_SPEED as i64 {
        PARTICLE_MAX_SPEED
    } else if v < -(PARTICLE_MAX_SPEED as i64) {
        -PARTICLE_MAX_SPEED
    } else {
        v as i32
    }
}

/// Draws a candidate position for a body of half-extent `half`.
fn propose(rng: &mut Lcg, arena: &Arena, half: Vec2) -> (c: Vec2)
    requires
        arena.wf(),
        arena.fits(half),
    ensures
        (c, final(rng).state) == candidate(*arena, half, old(rng).state),
        arena.inside(Body { center: c, half }),
{
    let w: i32 = arena.interior_half_width() - half.x;
    let h: i32 = arena.interior_half_height() - half.y;
    let x = rng.pick(-w, w);
    let y = rng.pick(-h, h);
    Vec2 { x, y }
}

/// Chooses the position of a new body of half-extent `half`: draws
/// candidates until one does not overlap `avoid`, and settles for the next
/// one once `SPAWN_RETRIES` have been rejected.
pub fn place(rng: &mut Lcg, arena: &Arena, half: Vec2, avoid: &Body) -> (c: Vec2)
    requires
        arena.wf(),
        arena.fits(half),
    ensures
        (c, final(rng).state) == placement(
            *arena,
            half,
            *avoid,
            old(rng).state,
            SPAWN_RETRIES as nat,
        ),
        arena.inside(Body { center: c, half }),
{
    let mut retries: u32 = SPAWN_RETRIES;
    let mut c = propose(rng, arena, half);
    let mut blocked = overlaps(&Body { center: c, half }, avoid);
    while retries > 0 && blocked
        invariant
            arena.wf(),
            arena.fits(half),
            arena.inside(Body { center: c, half }),
            blocked == intersects(Body { center: c, half }, *avoid),
            placement(*arena, half, *avoid, old(rng).state, SPAWN_RETRIES as nat) == if retries
                == 0 || !blocked {
                (c, rng.state)
            } else {
                placement(*arena, half, *avoid, rng.state, (retries - 1) as nat)
            },
        decreases retries,
    {
        retries = retries - 1;
        c = propose(rng, arena, half);
        blocked = overlaps(&Body { center: c, half }, avoid);
    }
    c
}

/// Creates a particle of half-extent `half` by the spawn policy: placed
/// clear of `avoid` if the retries allow, at rest, with a random charge.
pub fn spawn_particle(rng: &mut Lcg, arena: &Arena, half: Vec2, avoid: &Body) -> (p: Particle)
    requires
        arena.wf(),
        arena.fits(half),
    ensures
        (p, final(rng).state) == fresh_particle(*arena, half, *avoid, old(rng).state),
        p.wf(),
        arena.inside(p.body),
{
    let center = place(rng, arena, half, avoid);
    let charge = if rng.next() % 2 == 0 {
        Charge::Attracting
    } else {
        Charge::Repelling
    };
    Particle { body: Body { center, half }, velocity: Vec2 { x: 0, y: 0 }, charge }
}

} // verus!
