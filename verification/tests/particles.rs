use charge_arena::geometry::{overlaps, Body, Vec2};
use charge_arena::particle::{place, spawn_particle, Charge, Particle};
use charge_arena::pool::ParticlePool;
use charge_arena::rng::Lcg;
use charge_arena::walls::Arena;

const HALF: Vec2 = Vec2 { x: 8_000, y: 8_000 };

fn particle(x: i32, y: i32, vx: i32, vy: i32, charge: Charge) -> Particle {
    Particle {
        body: Body { center: Vec2 { x, y }, half: HALF },
        velocity: Vec2 { x: vx, y: vy },
        charge,
    }
}

fn player_body() -> Body {
    Body { center: Vec2 { x: 0, y: 0 }, half: Vec2 { x: 16_000, y: 16_000 } }
}

#[test]
fn attracting_particle_accelerates_toward_the_player() {
    let p = particle(100, -50, 0, 0, Charge::Attracting);
    assert_eq!(p.steer(Vec2 { x: 0, y: 0 }), Vec2 { x: -3_000, y: 3_000 });
    assert_eq!(p.steer(Vec2 { x: 500, y: -60 }), Vec2 { x: 3_000, y: -3_000 });
}

#[test]
fn repelling_particle_accelerates_away_from_the_player() {
    let p = particle(100, -50, 0, 0, Charge::Repelling);
    assert_eq!(p.steer(Vec2 { x: 0, y: 0 }), Vec2 { x: 3_000, y: -3_000 });
    assert_eq!(p.steer(Vec2 { x: 500, y: -60 }), Vec2 { x: -3_000, y: 3_000 });
}

#[test]
fn particle_level_with_the_player_feels_no_pull_on_that_axis() {
    let p = particle(100, -50, 700, -900, Charge::Attracting);
    assert_eq!(p.steer(Vec2 { x: 100, y: 0 }), Vec2 { x: 700, y: 2_100 });
    assert_eq!(p.steer(Vec2 { x: 100, y: -50 }), Vec2 { x: 700, y: -900 });
}

#[test]
fn particle_speed_is_capped_on_each_axis() {
    let p = particle(100, 100, 179_000, -179_500, Charge::Repelling);
    assert_eq!(p.steer(Vec2 { x: 0, y: 200 }), Vec2 { x: 180_000, y: -180_000 });
    let q = particle(100, 100, i32::MAX, i32::MIN, Charge::Repelling);
    assert_eq!(q.steer(Vec2 { x: 0, y: 200 }), Vec2 { x: 180_000, y: -180_000 });
    let r = particle(100, 100, 180_000, 180_000, Charge::Attracting);
    assert_eq!(r.steer(Vec2 { x: 0, y: 0 }), Vec2 { x: 177_000, y: 177_000 });
}

#[test]
fn particle_step_steers_then_travels() {
    let arena = Arena::standard();
    let walls = arena.walls();
    let p = particle(60_000, -30_000, 6_000, 0, Charge::Attracting);
    let q = p.step(&arena, &walls, Vec2 { x: 0, y: 0 });
    // velocity (6000 - 3000, 0 + 3000), travel 50 along each axis
    assert_eq!(q, particle(60_050, -29_950, 3_000, 3_000, Charge::Attracting));
}

#[test]
fn particle_slower_than_a_unit_per_tick_does_not_move() {
    let arena = Arena::standard();
    let walls = arena.walls();
    let p = particle(5, 7, 3_059, -3_059, Charge::Attracting);
    let q = p.step(&arena, &walls, Vec2 { x: 100, y: -100 });
    assert_eq!(q, particle(105, -93, 6_059, -6_059, Charge::Attracting));
    let r = particle(5, 7, 3_059, -3_059, Charge::Repelling).step(&arena, &walls, Vec2 {
        x: 100,
        y: -100,
    });
    assert_eq!(r, particle(5, 7, 59, -59, Charge::Repelling));
}

#[test]
fn particle_bounces_off_the_left_wall() {
    let arena = Arena::standard();
    let walls = arena.walls();
    // one unit from the inner face of the left wall, moving left
    let p = particle(-281_999, 0, -9_000, 0, Charge::Repelling);
    let q = p.step(&arena, &walls, Vec2 { x: 0, y: 0 });
    assert_eq!(q, particle(-282_000, 0, 12_000, 0, Charge::Repelling));
    assert_eq!(q.body.left(), walls[0].right());
}

#[test]
fn particle_bounces_off_every_wall() {
    let arena = Arena::standard();
    let walls = arena.walls();
    let target = Vec2 { x: 0, y: 0 };
    let right = particle(281_990, 10, 9_000, 0, Charge::Repelling).step(&arena, &walls, target);
    assert_eq!(right, particle(282_000, 60, -12_000, 3_000, Charge::Repelling));
    let top = particle(0, 231_990, 0, 9_000, Charge::Repelling).step(&arena, &walls, target);
    assert_eq!(top, particle(0, 232_000, 0, -12_000, Charge::Repelling));
    let bottom = particle(0, -231_990, 0, -9_000, Charge::Repelling).step(&arena, &walls, target);
    assert_eq!(bottom, particle(0, -232_000, 0, 12_000, Charge::Repelling));
}

#[test]
fn particle_bounces_in_a_corner_on_both_axes() {
    let arena = Arena::standard();
    let walls = arena.walls();
    let p = particle(281_990, -231_990, 60_000, -60_000, Charge::Repelling);
    let q = p.step(&arena, &walls, Vec2 { x: 0, y: 0 });
    assert_eq!(q, particle(282_000, -232_000, -63_000, 63_000, Charge::Repelling));
}

#[test]
fn particle_touching_a_wall_without_entering_does_not_bounce() {
    let arena = Arena::standard();
    let walls = arena.walls();
    let p = particle(-281_950, 0, 0, 0, Charge::Repelling);
    let q = p.step(&arena, &walls, Vec2 { x: 0, y: 0 });
    // velocity -3000, travel -50: exactly to the wall's face
    assert_eq!(q, particle(-282_000, 0, -3_000, 0, Charge::Repelling));
    let r = q.step(&arena, &walls, Vec2 { x: 0, y: 0 });
    assert_eq!(r, particle(-282_000, 0, 6_000, 0, Charge::Repelling));
}

#[test]
fn particles_stay_inside_the_arena() {
    let arena = Arena::standard();
    let walls = arena.walls();
    let mut a = particle(10, 20, 0, 0, Charge::Attracting);
    let mut r = particle(10, 20, 0, 0, Charge::Repelling);
    for tick in 0..3_000 {
        let target = Vec2 { x: (tick % 700) * 300 - 100_000, y: 50_000 - (tick % 300) * 200 };
        a = a.step(&arena, &walls, target);
        r = r.step(&arena, &walls, target);
        for p in [a, r].iter() {
            assert!(arena.holds(&p.body));
            assert!(p.velocity.x.abs() <= 180_000 && p.velocity.y.abs() <= 180_000);
            assert_eq!(p.body.half, HALF);
        }
    }
}

#[test]
fn place_accepts_the_first_candidate_that_is_clear() {
    let arena = Arena::standard();
    let mut rng = Lcg::new(42);
    let c = place(&mut rng, &arena, HALF, &player_body());
    assert_eq!(c, Vec2 { x: -183_658, y: 219_967 });
    assert_eq!(rng.state, 4_159_066_171_780_167_020);
}

#[test]
fn place_rejects_candidates_that_overlap() {
    let arena = Arena::standard();
    let avoid = Body { center: Vec2 { x: 0, y: 0 }, half: Vec2 { x: 200_000, y: 200_000 } };
    let mut first = Lcg::new(0);
    let x = first.pick(-282_000, 282_000);
    let y = first.pick(-232_000, 232_000);
    assert_eq!((x, y), (41_019, -64_092));
    assert!(overlaps(&Body { center: Vec2 { x, y }, half: HALF }, &avoid));
    let mut rng = Lcg::new(0);
    let c = place(&mut rng, &arena, HALF, &avoid);
    // the eighth candidate
    assert_eq!(c, Vec2 { x: 249_008, y: -223_786 });
    assert_eq!(rng.state, 3_646_985_772_805_368_400);
    assert!(!overlaps(&Body { center: c, half: HALF }, &avoid));
}

#[test]
fn place_settles_once_the_retries_are_exhausted() {
    let arena = Arena::standard();
    let everywhere = Body { center: Vec2 { x: 0, y: 0 }, half: Vec2 { x: 400_000, y: 400_000 } };
    let mut rng = Lcg::new(42);
    let c = place(&mut rng, &arena, HALF, &everywhere);
    // the seventeenth candidate, accepted though it overlaps
    let mut seventeen = Lcg::new(42);
    let mut last = (0, 0);
    for _ in 0..17 {
        last = (seventeen.pick(-282_000, 282_000), seventeen.pick(-232_000, 232_000));
    }
    assert_eq!(c, Vec2 { x: 87_152, y: 97_812 });
    assert_eq!((c.x, c.y), last);
    assert_eq!(rng.state, seventeen.state);
    assert!(arena.holds(&Body { center: c, half: HALF }));
}

#[test]
fn place_can_fill_the_whole_interior() {
    let arena = Arena::standard();
    let mut rng = Lcg::new(3);
    let half = Vec2 { x: 290_000, y: 240_000 };
    let c = place(&mut rng, &arena, half, &player_body());
    assert_eq!(c, Vec2 { x: 0, y: 0 });
}

#[test]
fn spawn_particle_places_a_particle_at_rest() {
    let arena = Arena::standard();
    let mut rng = Lcg::new(42);
    let p = spawn_particle(&mut rng, &arena, HALF, &player_body());
    assert_eq!(p, particle(-183_658, 219_967, 0, 0, Charge::Repelling));
    assert_eq!(rng.state, 7_615_522_811_268_512_075);
    let mut other = Lcg::new(0);
    let q = spawn_particle(&mut other, &arena, HALF, &player_body());
    assert_eq!(q, particle(41_019, -64_092, 0, 0, Charge::Attracting));
    assert_eq!(other.state, 11_166_244_414_315_200_793);
}

#[test]
fn spawned_particles_avoid_the_player_and_stay_inside() {
    let arena = Arena::standard();
    let mut rng = Lcg::new(2022);
    for _ in 0..2_000 {
        let p = spawn_particle(&mut rng, &arena, HALF, &player_body());
        assert!(arena.holds(&p.body));
        assert!(!overlaps(&p.body, &player_body()));
        assert_eq!(p.velocity, Vec2 { x: 0, y: 0 });
    }
}

#[test]
fn pool_starts_empty() {
    let pool = ParticlePool::new();
    assert_eq!(pool.capacity(), 0);
    assert_eq!(pool.live(), 0);
    assert_eq!(pool.get(0), None);
}

#[test]
fn pool_hands_out_handles_in_order() {
    let mut pool = ParticlePool::new();
    let a = particle(1, 1, 0, 0, Charge::Attracting);
    let b = particle(2, 2, 0, 0, Charge::Repelling);
    assert_eq!(pool.spawn(a), 0);
    assert_eq!(pool.spawn(b), 1);
    assert_eq!(pool.capacity(), 2);
    assert_eq!(pool.live(), 2);
    assert_eq!(pool.get(0), Some(a));
    assert_eq!(pool.get(1), Some(b));
    assert_eq!(pool.get(2), None);
}

#[test]
fn pool_reuses_the_slot_vacated_last() {
    let mut pool = ParticlePool::new();
    let ps: Vec<Particle> = (0..4).map(|i| particle(i, i, 0, 0, Charge::Attracting)).collect();
    for p in ps.iter() {
        pool.spawn(*p);
    }
    assert_eq!(pool.despawn(1), Some(ps[1]));
    assert_eq!(pool.despawn(3), Some(ps[3]));
    assert_eq!(pool.despawn(0), Some(ps[0]));
    assert_eq!(pool.live(), 1);
    assert_eq!(pool.capacity(), 4);
    let n = particle(9, 9, 0, 0, Charge::Repelling);
    assert_eq!(pool.spawn(n), 0);
    assert_eq!(pool.spawn(n), 3);
    assert_eq!(pool.spawn(n), 1);
    assert_eq!(pool.live(), 4);
    assert_eq!(pool.capacity(), 4);
    assert_eq!(pool.spawn(n), 4);
    assert_eq!(pool.capacity(), 5);
    assert_eq!(pool.get(0), Some(n));
    assert_eq!(pool.get(2), Some(ps[2]));
}

#[test]
fn pool_despawn_of_nothing_changes_nothing() {
    let mut pool = ParticlePool::new();
    let a = particle(1, 1, 0, 0, Charge::Attracting);
    pool.spawn(a);
    pool.spawn(a);
    assert_eq!(pool.despawn(5), None);
    assert_eq!(pool.despawn(1), Some(a));
    assert_eq!(pool.despawn(1), None);
    assert_eq!(pool.live(), 1);
    assert_eq!(pool.capacity(), 2);
    assert_eq!(pool.spawn(a), 1);
    assert_eq!(pool.spawn(a), 2);
}

#[test]
fn pool_replace_swaps_a_particle_in_place() {
    let mut pool = ParticlePool::new();
    let a = particle(1, 1, 0, 0, Charge::Attracting);
    let b = particle(2, 2, 5, 5, Charge::Repelling);
    pool.spawn(a);
    pool.spawn(a);
    assert!(pool.replace(1, b));
    assert_eq!(pool.get(1), Some(b));
    assert_eq!(pool.get(0), Some(a));
    assert_eq!(pool.live(), 2);
    pool.despawn(0);
    assert!(!pool.replace(0, b));
    assert!(!pool.replace(7, b));
    assert_eq!(pool.get(0), None);
    assert_eq!(pool.live(), 1);
}

#[test]
fn pool_clear_forgets_slots_and_handles() {
    let mut pool = ParticlePool::new();
    let a = particle(1, 1, 0, 0, Charge::Attracting);
    pool.spawn(a);
    pool.spawn(a);
    pool.despawn(0);
    pool.clear();
    assert_eq!(pool.capacity(), 0);
    assert_eq!(pool.live(), 0);
    assert_eq!(pool.spawn(a), 0);
    assert_eq!(pool.capacity(), 1);
}
