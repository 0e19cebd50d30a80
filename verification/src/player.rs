//! The player: a body steered by the directional keys and halted at the
//! walls.

use vstd::prelude::*;
use crate::constants::{PLAYER_DIAGONAL_SPEED, PLAYER_SPEED};
use crate::geometry::{Body, Vec2};
use crate::motion::{displaced, displacement};
use crate::walls::Arena;

verus! {

/// The keys that are held during one tick.
#[derive(Clone, Copy, Debug, PartialEq, Eq, Structural)]
pub struct Input {
    pub up: bool,
    pub down: bool,
    pub left: bool,
    pub right: bool,
    pub restart: bool,
}

/// The player's body and its current velocity.
#[derive(Clone, Copy, Debug, PartialEq, Eq, Structural)]
pub struct Player {
    pub body: Body,
    pub velocity: Vec2,
}

/// The direction along one axis that two opposed keys ask for: `1`, `-1`, or
/// `0` when neither or both are held.
pub open spec fn axis(negative: bool, positive: bool) -> int {
    (if positive { 1int } else { 0int }) - (if negative { 1int } else { 0int })
}

/// `speed` in the given direction: `speed`, `-speed`, or `0`.
pub open spec fn along(direction: int, speed: int) -> int {
    if direction > 0 {
        speed
    } else if direction < 0 {
        -speed
    } else {
        0
    }
}

/// The velocity that the held keys ask for: `PLAYER_SPEED` along the axis of
/// a single direction, `PLAYER_DIAGONAL_SPEED` along both axes of a diagonal,
/// zero when no direction is held.
pub open spec fn steering(input: Input) -> Vec2 {
    let dx = axis(input.left, input.right);
    let dy = axis(input.down, input.up);
    let speed = if dx != 0 && dy != 0 { PLAYER_DIAGONAL_SPEED } else { PLAYER_SPEED };
    Vec2 { x: along(dx, speed as int) as i32, y: along(dy, speed as int) as i32 }
}

/// Computes the velocity that the held keys ask for.
pub fn steer(input: &Input) -> (v: Vec2)
    ensures
        v == steering(*input),
{
    let dx: i32 = (if input.right { 1i32 } else { 0i32 }) - (if input.left { 1i32 } else { 0i32 });
    let dy: i32 = (if input.up { 1i32 } else { 0i32 }) - (if input.down { 1i32 } else { 0i32 });
    let speed: i32 = if dx != 0 && dy != 0 { PLAYER_DIAGONAL_SPEED } else { PLAYER_SPEED };
    Vec2 {
        x: if dx > 0 { speed } else if dx < 0 { -speed } else { 0 },
        y: if dy > 0 { speed } else if dy < 0 { -speed } else { 0 },
    }
}

impl Player {
    /// The player as a session starts: at rest on the centre of the arena.
    pub open spec fn spawned(half: Vec2) -> Player {
        Player {
            body: Body { center: Vec2 { x: 0, y: 0 }, half },
            velocity: Vec2 { x: 0, y: 0 },
        }
    }

    /// The player one tick later: it takes the velocity that the keys ask
    /// for, travels, and is halted at the walls on each axis by itself.
    pub open spec fn stepped(self, arena: Arena, input: Input) -> Player {
        let v = steering(input);
        Player { body: arena.clamped(displaced(self.body, v)), velocity: v }
    }

    /// Places a player with the given half-extent on the centre of the arena.
    pub fn spawn(half: Vec2) -> (p: Player)
        ensures
            p == Player::spawned(half),
    {
        Player { body: Body { center: Vec2 { x: 0, y: 0 }, half }, velocity: Vec2 { x: 0, y: 0 } }
    }

    /// Advances the player by one tick.
    pub fn step(&mut self, arena: &Arena, walls: &[Body; 4], input: &Input)
        requires
            arena.wf(),
            walls@ == arena.wall_bodies(),
            old(self).body.wf(),
            arena.inside(old(self).body),
        ensures
            *final(self) == old(self).stepped(*arena, *input),
            final(self).body.wf(),
            arena.inside(final(self).body),
    {
        let v = steer(input);
        let moved = Body {
            center: Vec2 {
                x: self.body.center.x + displacement(v.x),
                y: self.body.center.y + displacement(v.y),
            },
            half: self.body.half,
        };
        let (body, _) = arena.confine(walls, moved);
        self.body = body;
        self.velocity = v;
    }
}

/// The player never moves faster than `PLAYER_SPEED`, whatever keys are
/// held: along a diagonal the speed is the largest that stays within it.
pub proof fn lemma_speed_capped(input: Input)
    ensures
        ({
            let v = steering(input);
            v.x * v.x + v.y * v.y <= PLAYER_SPEED * PLAYER_SPEED
        }),
        2 * (PLAYER_DIAGONAL_SPEED + 1) * (PLAYER_DIAGONAL_SPEED + 1) > PLAYER_SPEED
            * PLAYER_SPEED,
{
    let v = steering(input);
    let s: int = 240_000;
    let d: int = 169_705;
    assert(s * s == 57_600_000_000) by (nonlinear_arith)
        requires
            s == 240_000,
    ;
    assert(d * d == 28_799_787_025) by (nonlinear_arith)
        requires
            d == 169_705,
    ;
    assert((d + 1) * (d + 1) == 28_800_126_436) by (nonlinear_arith)
        requires
            d == 169_705,
    ;
    assert((-s) * (-s) == s * s) by (nonlinear_arith);
    assert((-d) * (-d) == d * d) by (nonlinear_arith);
    assert(0 * 0 == 0) by (nonlinear_arith);
    assert(v.x == 0 || v.x == s || v.x == -s || v.x == d || v.x == -d);
    assert(v.y == 0 || v.y == s || v.y == -s || v.y == d || v.y == -d);
}

/// A player inside the arena is inside it one tick later, with the same
/// extent.
pub proof fn lemma_player_stays_inside(p: Player, arena: Arena, input: Input)
    requires
        arena.wf(),
        p.body.wf(),
        arena.inside(p.body),
    ensures
        p.stepped(arena, input).body.half == p.body.half,
        arena.inside(p.stepped(arena, input).body),
{
}

/// With no direction held, or two opposed ones, the player stays put.
pub proof fn lemma_rest(p: Player, arena: Arena, input: Input)
    requires
        arena.wf(),
        arena.inside(p.body),
        input.left == input.right,
        input.up == input.down,
    ensures
        p.stepped(arena, input).body == p.body,
        p.stepped(arena, input).velocity == (Vec2 { x: 0, y: 0 }),
{
}

} // verus!
