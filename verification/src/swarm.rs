//! The particles of a session as a whole: their placement when a session
//! starts, their motion, and what happens when the player reaches one.

use vstd::prelude::*;
use crate::config::GameConfig;
use crate::constants::PARTICLE_REWARD;
use crate::geometry::{intersects, overlaps, Body, Vec2};
use crate::particle::{
    fresh_particle, lemma_fresh_particle, lemma_stepped_stays_inside, spawn_particle, Particle,
};
use crate::pool::{lemma_despawned, lemma_spawned, occupied, ParticlePool, PoolView};
use crate::rng::Lcg;
use crate::sprite::EntityKind;
use crate::walls::Arena;

verus! {

/// The slots after every particle in them has been advanced by one tick
/// while the player is at `target`.
pub open spec fn moved_slots(slots: Seq<Option<Particle>>, arena: Arena, target: Vec2) -> Seq<
    Option<Particle>,
> {
    Seq::new(
        slots.len(),
        |h: int|
            match slots[h] {
                Some(p) => Some(p.stepped(arena, target)),
                None => None,
            },
    )
}

/// The score after one more particle has been collected. The score does not
/// grow past the largest number it can hold.
pub open spec fn rewarded(score: u64) -> u64 {
    if score + PARTICLE_REWARD > u64::MAX {
        u64::MAX
    } else {
        (score + PARTICLE_REWARD) as u64
    }
}

/// The number of particles with handles below `below` that overlap `player`.
pub open spec fn reached(slots: Seq<Option<Particle>>, player: Body, below: nat) -> nat
    decreases below,
{
    if below == 0 {
        0
    } else {
        reached(slots, player, (below - 1) as nat) + match slots[below - 1] {
            Some(p) => if intersects(p.body, player) { 1nat } else { 0nat },
            None => 0nat,
        }
    }
}

/// The score after `count` more particles have been collected.
pub open spec fn rewarded_times(score: u64, count: nat) -> u64 {
    if score + count * PARTICLE_REWARD > u64::MAX {
        u64::MAX
    } else {
        (score + count * PARTICLE_REWARD) as u64
    }
}

/// What collecting particles changes: the pool, the generator's state and
/// the score.
pub struct Harvest {
    pub pool: PoolView,
    pub rng: u64,
    pub score: u64,
}

impl GameConfig {
    /// The pool and the generator's state after `count` particles have been
    /// placed one after the other, each clear of `avoid` if the retries
    /// allow.
    pub open spec fn populated(self, pool: PoolView, rng: u64, avoid: Body, count: nat) -> (
        PoolView,
        u64,
    )
        decreases count,
    {
        if count == 0 {
            (pool, rng)
        } else {
            let (before, r) = self.populated(pool, rng, avoid, (count - 1) as nat);
            let (p, next) = fresh_particle(self.arena, self.particle_half(), avoid, r);
            (before.spawned(p), next)
        }
    }

    /// The outcome of testing the particle with handle `slot` against the
    /// player. Where the two overlap, the particle is despawned and the
    /// score rewarded once; if that leaves fewer particles than the minimum,
    /// a new one is spawned in its place.
    pub open spec fn harvest_slot(self, h: Harvest, player: Body, slot: int) -> Harvest {
        match h.pool.get(slot) {
            Some(p) => if intersects(p.body, player) {
                let pool = h.pool.despawned(slot);
                let score = rewarded(h.score);
                if pool.live() < self.min_particles {
                    let (fresh, rng) = fresh_particle(
                        self.arena,
                        self.particle_half(),
                        player,
                        h.rng,
                    );
                    Harvest { pool: pool.spawned(fresh), rng, score }
                } else {
                    Harvest { pool, rng: h.rng, score }
                }
            } else {
                h
            },
            None => h,
        }
    }

    /// The outcome of testing the particles with handles below `slots`
    /// against the player, in the order of their handles.
    pub open spec fn harvested(self, h: Harvest, player: Body, slots: nat) -> Harvest
        decreases slots,
    {
        if slots == 0 {
            h
        } else {
            self.harvest_slot(self.harvested(h, player, (slots - 1) as nat), player, slots - 1)
        }
    }

    /// Whether `pool` can be the particles of a session: it is well-formed,
    /// no larger than allowed, and holds only particles that are admitted.
    pub open spec fn hosts(self, pool: PoolView) -> bool {
        &&& pool.wf()
        &&& pool.slots.len() <= self.initial_particles
        &&& self.admits_all(pool.slots)
    }
}

/// Motion changes no handle and no count, and keeps every particle admitted.
pub proof fn lemma_moved(config: GameConfig, pool: PoolView, target: Vec2)
    requires
        config.wf(),
        config.hosts(pool),
    ensures
        ({
            let after = PoolView {
                slots: moved_slots(pool.slots, config.arena, target),
                free: pool.free,
            };
            &&& config.hosts(after)
            &&& after.live() == pool.live()
            &&& after.slots.len() == pool.slots.len()
        }),
{
    let slots = moved_slots(pool.slots, config.arena, target);
    assert forall|h: int| 0 <= h < slots.len() implies match #[trigger] slots[h] {
        Some(p) => config.admits(p),
        None => true,
    } by {
        match pool.slots[h] {
            Some(p) => {
                lemma_stepped_stays_inside(p, config.arena, target);
            },
            None => {},
        }
    }
    lemma_same_shape(pool.slots, slots);
}

/// Two rows of slots that are occupied at the same handles hold equally many
/// particles.
pub proof fn lemma_same_shape(a: Seq<Option<Particle>>, b: Seq<Option<Particle>>)
    requires
        a.len() == b.len(),
        forall|h: int| 0 <= h < a.len() ==> (a[h] is Some <==> b[h] is Some),
    ensures
        occupied(a) == occupied(b),
    decreases a.len(),
{
    if a.len() > 0 {
        lemma_same_shape(a.drop_last(), b.drop_last());
    }
}

/// Placing particles in a pool without empty slots adds one slot for each,
/// all of them occupied by admitted particles.
pub proof fn lemma_populated(config: GameConfig, pool: PoolView, rng: u64, avoid: Body, count: nat)
    requires
        config.wf(),
        pool.wf(),
        config.admits_all(pool.slots),
        pool.free.len() == 0,
        pool.slots.len() + count <= config.initial_particles,
    ensures
        ({
            let after = config.populated(pool, rng, avoid, count).0;
            &&& after.wf()
            &&& config.admits_all(after.slots)
            &&& after.free.len() == 0
            &&& after.slots.len() == pool.slots.len() + count
            &&& after.live() == pool.live() + count
        }),
    decreases count,
{
    if count > 0 {
        let (before, r) = config.populated(pool, rng, avoid, (count - 1) as nat);
        lemma_populated(config, pool, rng, avoid, (count - 1) as nat);
        let (p, next) = fresh_particle(config.arena, config.particle_half(), avoid, r);
        lemma_fresh_particle(config.arena, config.particle_half(), avoid, r);
        lemma_spawned(before, p);
        let after = before.spawned(p);
        assert forall|h: int| 0 <= h < after.slots.len() implies match #[trigger] after.slots[h] {
            Some(q) => config.admits(q),
            None => true,
        } by {
            if h < before.slots.len() {
                assert(after.slots[h] == before.slots[h]);
            }
        }
    }
}

/// Collecting keeps the pool fit for the session, changes no handle of a
/// particle that is not collected, never lowers the score, and leaves the
/// population at or above the minimum if it was so before.
pub proof fn lemma_harvested(config: GameConfig, h: Harvest, player: Body, slots: nat)
    requires
        config.wf(),
        config.hosts(h.pool),
        slots <= h.pool.slots.len(),
    ensures
        ({
            let after = config.harvested(h, player, slots);
            &&& config.hosts(after.pool)
            &&& after.pool.slots.len() == h.pool.slots.len()
            &&& after.score >= h.score
            &&& h.pool.live() >= config.min_particles ==> after.pool.live()
                >= config.min_particles
            &&& after.pool.live() <= h.pool.live()
            &&& forall|k: int|
                slots <= k < h.pool.slots.len() ==> after.pool.slots[k] == h.pool.slots[k]
        }),
    decreases slots,
{
    if slots > 0 {
        let before = config.harvested(h, player, (slots - 1) as nat);
        lemma_harvested(config, h, player, (slots - 1) as nat);
        lemma_harvest_slot(config, before, player, slots - 1);
    }
}

/// Every particle that overlaps the player is rewarded exactly once: the
/// score grows by the reward for each of them, and by nothing else.
pub proof fn lemma_each_rewarded_once(config: GameConfig, h: Harvest, player: Body, slots: nat)
    requires
        config.wf(),
        config.hosts(h.pool),
        slots <= h.pool.slots.len(),
    ensures
        config.harvested(h, player, slots).score == rewarded_times(
            h.score,
            reached(h.pool.slots, player, slots),
        ),
    decreases slots,
{
    if slots > 0 {
        lemma_each_rewarded_once(config, h, player, (slots - 1) as nat);
        lemma_harvested(config, h, player, (slots - 1) as nat);
        let before = config.harvested(h, player, (slots - 1) as nat);
        assert(before.pool.get(slots - 1) == h.pool.slots[slots - 1]);
        let count = reached(h.pool.slots, player, (slots - 1) as nat);
        assert((count + 1) * PARTICLE_REWARD == count * PARTICLE_REWARD + PARTICLE_REWARD)
            by (nonlinear_arith);
    }
}

/// Where no particle overlaps the player, collecting changes nothing.
pub proof fn lemma_none_reached(config: GameConfig, h: Harvest, player: Body, slots: nat)
    requires
        config.wf(),
        config.hosts(h.pool),
        slots <= h.pool.slots.len(),
        reached(h.pool.slots, player, slots) == 0,
    ensures
        config.harvested(h, player, slots) == h,
    decreases slots,
{
    if slots > 0 {
        lemma_none_reached(config, h, player, (slots - 1) as nat);
    }
}

/// One step of collecting, with the same guarantees as the whole.
pub proof fn lemma_harvest_slot(config: GameConfig, h: Harvest, player: Body, slot: int)
    requires
        config.wf(),
        config.hosts(h.pool),
        0 <= slot < h.pool.slots.len(),
    ensures
        ({
            let after = config.harvest_slot(h, player, slot);
            &&& config.hosts(after.pool)
            &&& after.pool.slots.len() == h.pool.slots.len()
            &&& after.score >= h.score
            &&& h.pool.live() >= config.min_particles ==> after.pool.live()
                >= config.min_particles
            &&& after.pool.live() <= h.pool.live()
            &&& forall|k: int|
                0 <= k < h.pool.slots.len() && k != slot ==> after.pool.slots[k] == h.pool.slots[k]
        }),
{
    match h.pool.get(slot) {
        Some(p) => {
            if intersects(p.body, player) {
                let pool = h.pool.despawned(slot);
                lemma_despawned(h.pool, slot);
                assert forall|k: int| 0 <= k < pool.slots.len() implies match #[trigger] pool
                    .slots[k] {
                    Some(q) => config.admits(q),
                    None => true,
                } by {
                    if k != slot {
                        assert(pool.slots[k] == h.pool.slots[k]);
                    }
                }
                if pool.live() < config.min_particles {
                    let (fresh, rng) = fresh_particle(
                        config.arena,
                        config.particle_half(),
                        player,
                        h.rng,
                    );
                    lemma_fresh_particle(config.arena, config.particle_half(), player, h.rng);
                    lemma_spawned(pool, fresh);
                    let after = pool.spawned(fresh);
                    assert(pool.next_handle() == slot);
                    assert forall|k: int| 0 <= k < after.slots.len() implies match #[trigger] after
                        .slots[k] {
                        Some(q) => config.admits(q),
                        None => true,
                    } by {
                        if k != slot {
                            assert(after.slots[k] == pool.slots[k]);
                        }
                    }
                }
            }
        },
        None => {},
    }
}

/// Places `count` particles in the pool by the spawn policy, each clear of
/// `avoid` if the retries allow.
pub fn populate(
    pool: &mut ParticlePool,
    rng: &mut Lcg,
    config: &GameConfig,
    avoid: &Body,
    count: usize,
)
    requires
        config.wf(),
        old(pool)@.wf(),
        config.admits_all(old(pool)@.slots),
        old(pool)@.free.len() == 0,
        old(pool)@.slots.len() + count <= config.initial_particles,
    ensures
        (final(pool)@, final(rng).state) == config.populated(
            old(pool)@,
            old(rng).state,
            *avoid,
            count as nat,
        ),
        config.hosts(final(pool)@),
{
    let ghost pool0 = pool@;
    let ghost rng0 = rng.state;
    let half = config.sprites.size(EntityKind::Particle).half_extent();
    let mut placed: usize = 0;
    while placed < count
        invariant
            placed <= count,
            config.wf(),
            half == config.particle_half(),
            pool0.wf(),
            config.admits_all(pool0.slots),
            pool0.free.len() == 0,
            pool0.slots.len() + count <= config.initial_particles,
            (pool@, rng.state) == config.populated(pool0, rng0, *avoid, placed as nat),
        decreases count - placed,
    {
        proof {
            lemma_populated(*config, pool0, rng0, *avoid, placed as nat);
        }
        let p = spawn_particle(rng, &config.arena, half, avoid);
        pool.spawn(p);
        placed = placed + 1;
    }
    proof {
        lemma_populated(*config, pool0, rng0, *avoid, count as nat);
    }
}

/// Advances every particle by one tick while the player is at `target`.
pub fn advance(pool: &mut ParticlePool, config: &GameConfig, walls: &[Body; 4], target: Vec2)
    requires
        config.wf(),
        walls@ == config.arena.wall_bodies(),
        config.hosts(old(pool)@),
    ensures
        final(pool)@.slots == moved_slots(old(pool)@.slots, config.arena, target),
        final(pool)@.free == old(pool)@.free,
        config.hosts(final(pool)@),
{
    let ghost pool0 = pool@;
    let n = pool.capacity();
    let mut h: usize = 0;
    while h < n
        invariant
            h <= n,
            n == pool0.slots.len(),
            config.wf(),
            walls@ == config.arena.wall_bodies(),
            config.hosts(pool0),
            pool@.wf(),
            pool@.free == pool0.free,
            pool@.slots.len() == n,
            forall|k: int|
                0 <= k < h ==> pool@.slots[k] == moved_slots(pool0.slots, config.arena, target)[k],
            forall|k: int| h <= k < n ==> pool@.slots[k] == pool0.slots[k],
        decreases n - h,
    {
        match pool.get(h) {
            Some(p) => {
                assert(pool0.slots[h as int] == Some(p));
                let q = p.step(&config.arena, walls, target);
                pool.replace(h, q);
            },
            None => {},
        }
        h = h + 1;
    }
    proof {
        lemma_moved(*config, pool0, target);
        assert(pool@.slots =~= moved_slots(pool0.slots, config.arena, target));
    }
}

/// Tests every particle against the player, in the order of their handles.
/// A particle that overlaps the player is despawned and rewarded; if that
/// leaves fewer particles than the minimum, a new one is spawned at once.
pub fn harvest(
    pool: &mut ParticlePool,
    rng: &mut Lcg,
    score: &mut u64,
    config: &GameConfig,
    player: &Body,
)
    requires
        config.wf(),
        config.hosts(old(pool)@),
    ensures
        (Harvest { pool: final(pool)@, rng: final(rng).state, score: *final(score) })
            == config.harvested(
            Harvest { pool: old(pool)@, rng: old(rng).state, score: *old(score) },
            *player,
            old(pool)@.slots.len(),
        ),
        config.hosts(final(pool)@),
{
    let ghost start = Harvest { pool: pool@, rng: rng.state, score: *score };
    let half = config.sprites.size(EntityKind::Particle).half_extent();
    let n = pool.capacity();
    let mut h: usize = 0;
    while h < n
        invariant
            h <= n,
            n == start.pool.slots.len(),
            config.wf(),
            half == config.particle_half(),
            config.hosts(start.pool),
            (Harvest { pool: pool@, rng: rng.state, score: *score }) == config.harvested(
                start,
                *player,
                h as nat,
            ),
        decreases n - h,
    {
        proof {
            lemma_harvested(*config, start, *player, h as nat);
        }
        let ghost before = Harvest { pool: pool@, rng: rng.state, score: *score };
        match pool.get(h) {
            Some(p) => {
                if overlaps(&p.body, player) {
                    pool.despawn(h);
                    *score = score.saturating_add(PARTICLE_REWARD);
                    proof {
                        lemma_despawned(before.pool, h as int);
                    }
                    if pool.live() < config.min_particles {
                        let fresh = spawn_particle(rng, &config.arena, half, player);
                        pool.spawn(fresh);
                    }
                }
            },
            None => {},
        }
        h = h + 1;
    }
    proof {
        lemma_harvested(*config, start, *player, n as nat);
    }
}

} // verus!
