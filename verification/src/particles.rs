//! The particle ring: which slot a new particle takes, and
//! how long each one lives.
//!
//! Each emitter keeps a fixed ring of particles. A new particle overwrites the
//! oldest slot, whatever is in it, and lives a fixed number of updates. Where a
//! particle is and how it moves is kept per slot beside this ring, by the
//! emitter that draws it.
use vstd::prelude::*;

verus! {

/// Slots in each emitter's ring.
pub const PARTICLE_COUNT: usize = 2000;

/// A particle's remaining life after one update: it counts down to zero and
/// stays there.
pub open spec fn aged(life: i32) -> i32 {
    if life > 0 {
        (life - 1) as i32
    } else {
        life
    }
}

/// How many of `lives` are still alive.
pub open spec fn count_alive(lives: Seq<i32>) -> nat {
    lives.filter(|l: i32| l > 0).len()
}

/// The lives of one emitter's particles, and where the next one goes.
#[derive(Debug)]
pub struct Ring {
    lives: Vec<i32>,
    /// The life a new particle starts with.
    life: i32,
    /// The slot after the one last written; wrapped before it is used.
    next: usize,
}

impl Ring {
    #[verifier::type_invariant]
    spec fn inv(self) -> bool {
        &&& self.lives@.len() == PARTICLE_COUNT
        &&& self.next <= PARTICLE_COUNT
    }

    /// Every slot's remaining life, in slot order.
    pub closed spec fn lives(self) -> Seq<i32> {
        self.lives@
    }

    /// The life a new particle starts with.
    pub closed spec fn full_life(self) -> i32 {
        self.life
    }

    /// The slot the next particle will take.
    pub closed spec fn next_slot(self) -> int {
        self.next as int % PARTICLE_COUNT as int
    }

    /// An empty ring whose particles live `life` updates.
    pub fn new(life: i32) -> (ring: Self)
        ensures
            ring.lives() == Seq::new(PARTICLE_COUNT as nat, |i: int| 0i32),
            ring.full_life() == life,
            ring.next_slot() == 0,
    {
        let mut lives: Vec<i32> = Vec::new();
        let mut i: usize = 0;
        while i < PARTICLE_COUNT
            invariant
                i <= PARTICLE_COUNT,
                lives@ == Seq::new(i as nat, |j: int| 0i32),
            decreases PARTICLE_COUNT - i,
        {
            lives.push(0);
            i = i + 1;
            assert(lives@ =~= Seq::new(i as nat, |j: int| 0i32));
        }
        Ring { lives, life, next: 0 }
    }

    /// A new particle, at full life, in the oldest slot: the one after the
    /// slot last written, wrapping round. Returns the slot it took.
    pub fn add(&mut self) -> (slot: usize)
        ensures
            slot == old(self).next_slot(),
            final(self).lives() == old(self).lives().update(slot as int, old(self).full_life()),
            final(self).full_life() == old(self).full_life(),
            final(self).next_slot() == (slot + 1) % PARTICLE_COUNT as int,
    {
        proof {
            use_type_invariant(&*self);
        }
        let slot = self.next % PARTICLE_COUNT;
        let life = self.life;
        self.lives[slot] = life;
        self.next = slot + 1;
        slot
    }

    /// One update: every live particle loses one life.
    pub fn age(&mut self)
        ensures
            final(self).lives() == old(self).lives().map_values(|l: i32| aged(l)),
            final(self).full_life() == old(self).full_life(),
            final(self).next_slot() == old(self).next_slot(),
    {
        proof {
            use_type_invariant(&*self);
        }
        let ghost before = *self;
        let mut i: usize = 0;
        while i < PARTICLE_COUNT
            invariant
                i <= PARTICLE_COUNT,
                self.life == before.life,
                self.next == before.next,
                self.lives@.len() == PARTICLE_COUNT,
                before.lives@.len() == PARTICLE_COUNT,
                forall|j: int| 0 <= j < i ==> #[trigger] self.lives@[j] == aged(before.lives@[j]),
                forall|j: int| i <= j < PARTICLE_COUNT ==> #[trigger] self.lives@[j] == before.lives@[j],
            decreases PARTICLE_COUNT - i,
        {
            proof {
                use_type_invariant(&*self);
            }
            if self.lives[i] > 0 {
                let l = self.lives[i] - 1;
                self.lives[i] = l;
            }
            i = i + 1;
        }
        assert(self.lives@ =~= before.lives@.map_values(|l: i32| aged(l)));
    }

    /// The remaining life of the particle in `slot`; zero once it has died.
    pub fn life_of(&self, slot: usize) -> (life: i32)
        requires
            slot < PARTICLE_COUNT,
        ensures
            life == self.lives()[slot as int],
    {
        proof {
            use_type_invariant(self);
        }
        self.lives[slot]
    }

    /// The life a new particle starts with.
    pub fn full(&self) -> (life: i32)
        ensures
            life == self.full_life(),
    {
        self.life
    }

    /// How many of the ring's particles are alive.
    pub fn live_count(&self) -> (n: usize)
        ensures
            n == count_alive(self.lives()),
    {
        proof {
            use_type_invariant(self);
        }
        let ghost alive = |l: i32| l > 0;
        let mut n: usize = 0;
        let mut i: usize = 0;
        while i < PARTICLE_COUNT
            invariant
                i <= PARTICLE_COUNT,
                self.lives@.len() == PARTICLE_COUNT,
                alive == (|l: i32| l > 0),
                n == self.lives@.take(i as int).filter(alive).len(),
                n <= i,
            decreases PARTICLE_COUNT - i,
        {
            proof {
                assert(self.lives@.take(i + 1) =~= self.lives@.take(i as int).push(self.lives@[i as int]));
                reveal(Seq::filter);
                assert(self.lives@.take(i as int).push(self.lives@[i as int]).drop_last() =~= self.lives@.take(i as int));
            }
            if self.lives[i] > 0 {
                n = n + 1;
            }
            i = i + 1;
        }
        proof {
            assert(self.lives@.take(PARTICLE_COUNT as int) =~= self.lives@);
        }
        n
    }
}

/// A particle lives exactly its full life: one with `life` updates to go is
/// still alive after `k < life` more and dead after `life`.
pub proof fn lemma_particles_live_their_full_life(life: i32, k: nat)
    requires
        life >= 0,
    ensures
        aged_by(life, k) == if k < life {
            (life - k) as i32
        } else {
            0i32
        },
    decreases k,
{
    if k > 0 {
        lemma_particles_live_their_full_life(life, (k - 1) as nat);
    }
}

/// A particle's remaining life after `k` updates.
pub open spec fn aged_by(life: i32, k: nat) -> i32
    decreases k,
{
    if k == 0 {
        life
    } else {
        aged(aged_by(life, (k - 1) as nat))
    }
}

/// The ring never grows: however many particles are added, at most
/// [`PARTICLE_COUNT`] of a ring's slots hold a live one.
pub proof fn lemma_ring_is_bounded(lives: Seq<i32>)
    requires
        lives.len() == PARTICLE_COUNT,
    ensures
        count_alive(lives) <= PARTICLE_COUNT,
{
    lives.lemma_filter_len(|l: i32| l > 0);
}

/// A particle counts as alive exactly while it has life left: no lives count
/// nothing, and one more slot adds one to the count when its life is positive
/// -- even a last update's worth -- and nothing when it is zero or less.
pub proof fn lemma_alive_means_life_left(lives: Seq<i32>, life: i32)
    ensures
        count_alive(Seq::<i32>::empty()) == 0,
        count_alive(lives.push(life)) == count_alive(lives) + if life > 0 {
            1int
        } else {
            0int
        },
{
    reveal(Seq::filter);
    lives.lemma_filter_len_push(|l: i32| l > 0, life);
    assert(Seq::<i32>::empty().filter(|l: i32| l > 0) =~= Seq::<i32>::empty());
}

} // verus!
