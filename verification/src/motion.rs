//! Integration of motion over one tick.

use vstd::prelude::*;
use crate::constants::{
    MAX_STEP, PARTICLE_MAX_SPEED, PLAYER_DIAGONAL_SPEED, PLAYER_SPEED, TICKS_PER_SECOND,
};
use crate::geometry::{Body, Vec2};

verus! {

/// The distance covered in one tick at velocity `v`: `v / TICKS_PER_SECOND`,
/// rounded toward zero.
pub open spec fn displacement_of(v: int) -> int {
    if v >= 0 {
        v / (TICKS_PER_SECOND as int)
    } else {
        -((-v) / (TICKS_PER_SECOND as int))
    }
}

/// `body` after one tick of travel at velocity `v`, walls disregarded.
pub open spec fn displaced(body: Body, v: Vec2) -> Body {
    Body {
        center: Vec2 {
            x: (body.center.x + displacement_of(v.x as int)) as i32,
            y: (body.center.y + displacement_of(v.y as int)) as i32,
        },
        half: body.half,
    }
}

/// At no speed that the player or a particle can have does a body move
/// farther than `MAX_STEP` along an axis in one tick.
pub proof fn lemma_max_step(v: int)
    requires
        -PLAYER_SPEED <= v <= PLAYER_SPEED,
    ensures
        -MAX_STEP <= displacement_of(v) <= MAX_STEP,
        PARTICLE_MAX_SPEED <= PLAYER_SPEED,
        PLAYER_DIAGONAL_SPEED <= PLAYER_SPEED,
{
}

/// Computes the distance covered in one tick at velocity `v`.
pub fn displacement(v: i32) -> (d: i32)
    ensures
        d == displacement_of(v as int),
        v >= 0 ==> 0 <= d <= v,
        v <= 0 ==> v <= d <= 0,
{
    v / TICKS_PER_SECOND
}

} // verus!
