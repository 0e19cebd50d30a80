//! Storage for the particles of a session: slots addressed by integer
//! handles, with a free list so that the slot of a despawned particle is used
//! again before the storage grows.

use vstd::prelude::*;
use crate::particle::Particle;

verus! {

/// The number of occupied slots.
pub open spec fn occupied(slots: Seq<Option<Particle>>) -> nat
    decreases slots.len(),
{
    if slots.len() == 0 {
        0
    } else {
        occupied(slots.drop_last()) + if slots.last() is Some { 1nat } else { 0nat }
    }
}

/// What a pool holds: its slots, by handle, and the handles of its empty
/// slots in the order in which they were vacated.
pub struct PoolView {
    pub slots: Seq<Option<Particle>>,
    pub free: Seq<usize>,
}

impl PoolView {
    /// The free list names empty slots, names none twice, and accounts for
    /// every slot that is not occupied; and the handles fit a `usize`.
    pub open spec fn wf(self) -> bool {
        &&& forall|i: int|
            0 <= i < self.free.len() ==> (#[trigger] self.free[i]) < self.slots.len()
                && self.slots[self.free[i] as int] is None
        &&& forall|i: int, j: int|
            0 <= i < j < self.free.len() ==> #[trigger] self.free[i] != #[trigger] self.free[j]
        &&& self.free.len() + occupied(self.slots) == self.slots.len()
        &&& self.slots.len() <= usize::MAX
    }

    /// A pool without slots.
    pub open spec fn empty() -> PoolView {
        PoolView { slots: Seq::empty(), free: Seq::empty() }
    }

    /// The number of particles in the pool.
    pub open spec fn live(self) -> nat {
        occupied(self.slots)
    }

    /// The particle with handle `h`, if there is one.
    pub open spec fn get(self, h: int) -> Option<Particle> {
        if 0 <= h < self.slots.len() {
            self.slots[h]
        } else {
            None
        }
    }

    /// The handle that the next particle to be spawned receives: that of the
    /// slot vacated last, or of a new slot if none is empty.
    pub open spec fn next_handle(self) -> int {
        if self.free.len() > 0 {
            self.free.last() as int
        } else {
            self.slots.len() as int
        }
    }

    /// The pool after `p` has been spawned.
    pub open spec fn spawned(self, p: Particle) -> PoolView {
        if self.free.len() > 0 {
            PoolView {
                slots: self.slots.update(self.free.last() as int, Some(p)),
                free: self.free.drop_last(),
            }
        } else {
            PoolView { slots: self.slots.push(Some(p)), free: self.free }
        }
    }

    /// The pool after the particle with handle `h` has been despawned; the
    /// pool itself if there is no such particle.
    pub open spec fn despawned(self, h: int) -> PoolView {
        if self.get(h) is Some {
            PoolView { slots: self.slots.update(h, None), free: self.free.push(h as usize) }
        } else {
            self
        }
    }

    /// The pool after the particle with handle `h` has been replaced by `p`;
    /// the pool itself if there is no such particle.
    pub open spec fn replaced(self, h: int, p: Particle) -> PoolView {
        if self.get(h) is Some {
            PoolView { slots: self.slots.update(h, Some(p)), free: self.free }
        } else {
            self
        }
    }
}

/// Filling or vacating one slot changes the count by that slot alone.
pub proof fn lemma_occupied_update(slots: Seq<Option<Particle>>, h: int, v: Option<Particle>)
    requires
        0 <= h < slots.len(),
    ensures
        occupied(slots.update(h, v)) + (if slots[h] is Some { 1nat } else { 0nat }) == occupied(
            slots,
        ) + (if v is Some { 1nat } else { 0nat }),
    decreases slots.len(),
{
    if h == slots.len() - 1 {
        assert(slots.update(h, v).drop_last() =~= slots.drop_last());
    } else {
        lemma_occupied_update(slots.drop_last(), h, v);
        assert(slots.update(h, v).drop_last() =~= slots.drop_last().update(h, v));
    }
}

/// A new occupied slot raises the count by one.
pub proof fn lemma_occupied_push(slots: Seq<Option<Particle>>, p: Particle)
    ensures
        occupied(slots.push(Some(p))) == occupied(slots) + 1,
{
    assert(slots.push(Some(p)).drop_last() =~= slots);
}

/// Spawning keeps a pool well-formed, adds one particle, and puts it where
/// `next_handle` said: into an empty slot if there was one.
pub proof fn lemma_spawned(v: PoolView, p: Particle)
    requires
        v.wf(),
        v.slots.len() < usize::MAX,
    ensures
        v.spawned(p).wf(),
        v.spawned(p).live() == v.live() + 1,
        v.spawned(p).get(v.next_handle()) == Some(p),
        v.live() < v.slots.len() ==> v.next_handle() < v.slots.len() && v.slots[v.next_handle()]
            is None && v.spawned(p).slots.len() == v.slots.len(),
        forall|h: int| h != v.next_handle() ==> v.spawned(p).get(h) == v.get(h),
{
    let w = v.spawned(p);
    if v.free.len() > 0 {
        let h = v.free.last() as int;
        assert(v.free[v.free.len() - 1] == v.free.last());
        lemma_occupied_update(v.slots, h, Some(p));
        assert forall|i: int| 0 <= i < w.free.len() implies (#[trigger] w.free[i]) < w.slots.len()
            && w.slots[w.free[i] as int] is None by {
            assert(w.free[i] == v.free[i]);
            assert(v.free[i] != v.free[v.free.len() - 1]);
        }
        assert forall|i: int, j: int| 0 <= i < j < w.free.len() implies #[trigger] w.free[i]
            != #[trigger] w.free[j] by {
            assert(w.free[i] == v.free[i]);
            assert(w.free[j] == v.free[j]);
        }
    } else {
        lemma_occupied_push(v.slots, p);
    }
}

/// Despawning keeps a pool well-formed, removes one particle, and makes its
/// slot the next to be filled.
pub proof fn lemma_despawned(v: PoolView, h: int)
    requires
        v.wf(),
        v.get(h) is Some,
    ensures
        v.despawned(h).wf(),
        v.despawned(h).live() + 1 == v.live(),
        v.despawned(h).next_handle() == h,
        v.despawned(h).slots.len() == v.slots.len(),
        v.despawned(h).get(h) is None,
        forall|k: int| k != h ==> v.despawned(h).get(k) == v.get(k),
{
    let w = v.despawned(h);
    lemma_occupied_update(v.slots, h, None);
    assert forall|i: int| 0 <= i < w.free.len() implies (#[trigger] w.free[i]) < w.slots.len()
        && w.slots[w.free[i] as int] is None by {
        if i < v.free.len() {
            assert(w.free[i] == v.free[i]);
        }
    }
    assert forall|i: int, j: int| 0 <= i < j < w.free.len() implies #[trigger] w.free[i]
        != #[trigger] w.free[j] by {
        assert(w.free[i] == v.free[i]);
        if j < v.free.len() {
            assert(w.free[j] == v.free[j]);
        }
    }
}

/// Replacing a particle keeps a pool well-formed and its count unchanged.
pub proof fn lemma_replaced(v: PoolView, h: int, p: Particle)
    requires
        v.wf(),
    ensures
        v.replaced(h, p).wf(),
        v.replaced(h, p).live() == v.live(),
{
    if v.get(h) is Some {
        lemma_occupied_update(v.slots, h, Some(p));
        let w = v.replaced(h, p);
        assert forall|i: int| 0 <= i < w.free.len() implies (#[trigger] w.free[i]) < w.slots.len()
            && w.slots[w.free[i] as int] is None by {
            assert(v.slots[v.free[i] as int] is None);
        }
    }
}

/// The particles of a session.
pub struct ParticlePool {
    slots: Vec<Option<Particle>>,
    free: Vec<usize>,
}

impl View for ParticlePool {
    type V = PoolView;

    closed spec fn view(&self) -> PoolView {
        PoolView { slots: self.slots@, free: self.free@ }
    }
}

impl ParticlePool {
    /// Creates a pool without slots.
    pub fn new() -> (pool: ParticlePool)
        ensures
            pool@ == PoolView::empty(),
            pool@.wf(),
    {
        let pool = ParticlePool { slots: Vec::new(), free: Vec::new() };
        assert(pool@.slots =~= Seq::empty());
        assert(pool@.free =~= Seq::empty());
        pool
    }

    /// The number of slots, occupied or not: handles are below it.
    pub fn capacity(&self) -> (n: usize)
        ensures
            n == self@.slots.len(),
    {
        self.slots.len()
    }

    /// The number of particles.
    pub fn live(&self) -> (n: usize)
        requires
            self@.wf(),
        ensures
            n == self@.live(),
    {
        self.slots.len() - self.free.len()
    }

    /// The particle with handle `h`, if there is one.
    pub fn get(&self, h: usize) -> (p: Option<Particle>)
        ensures
            p == self@.get(h as int),
    {
        if h < self.slots.len() {
            self.slots[h]
        } else {
            None
        }
    }

    /// Puts `p` in place of the particle with handle `h`, and tells whether
    /// there was one.
    pub fn replace(&mut self, h: usize, p: Particle) -> (done: bool)
        requires
            old(self)@.wf(),
        ensures
            final(self)@ == old(self)@.replaced(h as int, p),
            done == old(self)@.get(h as int) is Some,
            final(self)@.wf(),
    {
        proof {
            lemma_replaced(self@, h as int, p);
        }
        if h < self.slots.len() && self.slots[h].is_some() {
            self.slots.set(h, Some(p));
            true
        } else {
            false
        }
    }

    /// Adds `p` and returns its handle. An empty slot is filled, the one
    /// vacated last first; without one, a slot is added.
    pub fn spawn(&mut self, p: Particle) -> (h: usize)
        requires
            old(self)@.wf(),
            old(self)@.slots.len() < usize::MAX,
        ensures
            final(self)@ == old(self)@.spawned(p),
            h == old(self)@.next_handle(),
            final(self)@.wf(),
    {
        proof {
            lemma_spawned(self@, p);
        }
        match self.free.pop() {
            Some(h) => {
                self.slots.set(h, Some(p));
                h
            },
            None => {
                self.slots.push(Some(p));
                self.slots.len() - 1
            },
        }
    }

    /// Removes the particle with handle `h` and returns it, if there is one.
    pub fn despawn(&mut self, h: usize) -> (p: Option<Particle>)
        requires
            old(self)@.wf(),
        ensures
            p == old(self)@.get(h as int),
            final(self)@ == old(self)@.despawned(h as int),
            final(self)@.wf(),
    {
        let p = self.get(h);
        if p.is_some() {
            proof {
                lemma_despawned(self@, h as int);
            }
            self.slots.set(h, None);
            self.free.push(h);
        }
        p
    }

    /// Removes every particle and every slot.
    pub fn clear(&mut self)
        ensures
            final(self)@ == PoolView::empty(),
            final(self)@.wf(),
    {
        self.slots = Vec::new();
        self.free = Vec::new();
        assert(self@.slots =~= Seq::empty());
        assert(self@.free =~= Seq::empty());
    }
}

} // verus!
