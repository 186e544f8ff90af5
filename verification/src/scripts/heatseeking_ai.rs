//! The heat-seeking missile's decisions: a missile's lifetime and whether
//! it still has something to chase.
//!
//! Aiming, which leads the target, is arithmetic on positions and velocities
//! and is left to the steering; this decides each frame whether there is
//! anything to steer at.
use vstd::prelude::*;

use crate::world::{ActorId, World};

verus! {

/// Five seconds, then it gives up and counts as a miss.
pub const MAX_LIFETIME: i32 = 300;

#[derive(Clone, Copy, Debug, Default, PartialEq, Eq)]
pub struct HeatseekingAi {
    /// Updates lived so far.
    pub age: i32,
    pub target: Option<ActorId>,
}

/// What a missile does this frame.
#[derive(Clone, Copy, Debug, PartialEq, Eq)]
pub enum Guidance {
    /// Out of time, or never had a target: destroy itself, as a miss.
    SelfDestruct,
    /// Its target died: pick another, and steer next frame.
    Retarget,
    /// Steer at the target, leading it.
    Chase(ActorId),
}

/// One frame of a missile's life, taking it from `before` to `after` in
/// `world` with decision `guidance`: it ages by one, and gives up once past
/// its lifetime or with nothing to chase; otherwise it retargets if its target
/// has died, and chases it if not.
pub open spec fn guides(before: HeatseekingAi, world: World, guidance: Guidance, after: HeatseekingAi) -> bool {
    &&& after.age == before.age + 1
    &&& after.target == before.target
    &&& guidance == match before.target {
        None => Guidance::SelfDestruct,
        Some(t) => if after.age > MAX_LIFETIME {
            Guidance::SelfDestruct
        } else if world.actors()[t.0 as int].dead {
            Guidance::Retarget
        } else {
            Guidance::Chase(t)
        },
    }
}

impl HeatseekingAi {
    /// One frame of the missile's life: it ages, and then either gives up,
    /// looks for a new target, or chases the one it has.
    pub fn tick(&mut self, world: &World) -> (guidance: Guidance)
        requires
            old(self).age < i32::MAX,
            old(self).target matches Some(t) ==> world.valid(t),
        ensures
            guides(*old(self), *world, guidance, *final(self)),
    {
        self.age = self.age + 1;
        match self.target {
            None => Guidance::SelfDestruct,
            Some(target) => {
                if self.age > MAX_LIFETIME {
                    Guidance::SelfDestruct
                } else if world.is_dead(target) {
                    Guidance::Retarget
                } else {
                    Guidance::Chase(target)
                }
            },
        }
    }
}

/// A missile lives at most five seconds: whatever it is chasing, the update
/// that takes it past its lifetime is the one it destroys itself on, and a
/// missile only chases while it is within it.
pub proof fn lemma_missiles_expire(before: HeatseekingAi, world: World, guidance: Guidance, after: HeatseekingAi)
    requires
        guides(before, world, guidance, after),
    ensures
        before.age >= MAX_LIFETIME ==> guidance == Guidance::SelfDestruct,
        guidance is Chase ==> after.age <= MAX_LIFETIME,
{
}

/// Within its lifetime a missile with a target never gives up: it looks for
/// another target exactly when the one it has is dead, and chases that one
/// otherwise. Only a missile with no target, or one past its lifetime,
/// destroys itself.
pub proof fn lemma_a_live_missile_retargets_rather_than_gives_up(
    before: HeatseekingAi,
    world: World,
    guidance: Guidance,
    after: HeatseekingAi,
)
    requires
        guides(before, world, guidance, after),
    ensures
        before.target is Some && after.age <= MAX_LIFETIME ==> guidance != Guidance::SelfDestruct,
        before.target is Some && after.age <= MAX_LIFETIME ==> (guidance == Guidance::Retarget
            <==> world.actors()[before.target.unwrap().0 as int].dead),
        before.target is Some && after.age <= MAX_LIFETIME && !world.actors()[before.target.unwrap().0 as int].dead
            ==> guidance == Guidance::Chase(before.target.unwrap()),
        guidance == Guidance::SelfDestruct <==> (before.target is None || before.age
            >= MAX_LIFETIME),
{
}

} // verus!
