//! The CPU's build orders: what the CPU builds next.
//!
//! There is no strategy here at all. The CPU picks one of four canned build
//! orders at random, works through it, and picks another. Choosing an order is
//! one draw from the shared random stream; stepping within an order takes none.
//! How long the CPU waits and holds for each entry is worked out around this,
//! from the unit it names.
use vstd::prelude::*;

use crate::rng::{range_spec, LuaRng};
use crate::scripts::production::UnitType;
use crate::world::{ActorId, World};

verus! {

/// The four canned build orders. Fighters, mostly, with something bigger at
/// the end of each.
pub open spec fn scripted_actions() -> Seq<Seq<UnitType>> {
    seq![
        seq![UnitType::Fighter, UnitType::Fighter, UnitType::Fighter, UnitType::Fighter, UnitType::Bomber],
        seq![UnitType::Fighter, UnitType::Fighter, UnitType::Fighter, UnitType::Bomber],
        seq![UnitType::Fighter, UnitType::Fighter, UnitType::Bomber],
        seq![UnitType::Fighter, UnitType::Fighter, UnitType::Fighter, UnitType::Frigate],
    ]
}

/// The order a choice of `script_index` (1-based) picks.
pub open spec fn script(script_index: int) -> Seq<UnitType> {
    scripted_actions()[script_index - 1]
}

/// Where the CPU is in its build orders: which order, and which entry of it,
/// both 1-based.
#[derive(Clone, Copy, Debug, PartialEq, Eq)]
pub struct BuildOrder {
    script_index: usize,
    action_index: usize,
}

impl BuildOrder {
    #[verifier::type_invariant]
    spec fn inv(self) -> bool {
        &&& 1 <= self.script_index <= 4
        &&& 1 <= self.action_index <= script(self.script_index as int).len()
    }

    /// Which of the four orders is being worked through, 1-based.
    pub closed spec fn script(self) -> int {
        self.script_index as int
    }

    /// Which entry of that order is next, 1-based.
    pub closed spec fn action(self) -> int {
        self.action_index as int
    }

    /// The unit the current entry names.
    pub open spec fn unit(self) -> UnitType {
        script(self.script())[self.action() - 1]
    }

    /// The CPU's start: pick a build order, with one draw, and line up
    /// its first entry.
    pub fn new(rng: &mut LuaRng) -> (order: Self)
        ensures
            order.script() == range_spec(old(rng)@, 1, 4).0,
            final(rng)@ == range_spec(old(rng)@, 1, 4).1,
            order.action() == 1,
    {
        let script_index = Self::choose_script(rng);
        BuildOrder { script_index, action_index: 1 }
    }

    /// `next_script`: one draw, for one of the four orders.
    fn choose_script(rng: &mut LuaRng) -> (script_index: usize)
        ensures
            1 <= script_index <= 4,
            script_index == range_spec(old(rng)@, 1, 4).0,
            final(rng)@ == range_spec(old(rng)@, 1, 4).1,
    {
        let drawn = rng.next_range(1, 4);
        drawn as usize
    }

    /// Move on to the next entry of the build order; past the end of it,
    /// wrap onto a freshly chosen order, which costs one draw.
    pub fn advance(&mut self, rng: &mut LuaRng)
        ensures
            old(self).action() < script(old(self).script()).len() ==> {
                &&& final(self).script() == old(self).script()
                &&& final(self).action() == old(self).action() + 1
                &&& final(rng)@ == old(rng)@
            },
            old(self).action() == script(old(self).script()).len() ==> {
                &&& final(self).script() == range_spec(old(rng)@, 1, 4).0
                &&& final(self).action() == 1
                &&& final(rng)@ == range_spec(old(rng)@, 1, 4).1
            },
    {
        proof {
            use_type_invariant(&*self);
        }
        let len = Self::script_len(self.script_index);
        if self.action_index < len {
            self.action_index = self.action_index + 1;
        } else {
            let script_index = Self::choose_script(rng);
            *self = BuildOrder { script_index, action_index: 1 };
        }
    }

    /// The unit the current entry of the build order names.
    pub fn current_unit(&self) -> (unit: UnitType)
        ensures
            unit == self.unit(),
    {
        proof {
            use_type_invariant(self);
        }
        Self::unit_at(self.script_index, self.action_index)
    }

    /// Which of the four orders is being worked through, 1-based.
    pub fn script_index(&self) -> (i: usize)
        ensures
            i == self.script(),
            1 <= i <= 4,
    {
        proof {
            use_type_invariant(self);
        }
        self.script_index
    }

    /// Which entry of the current order is next, 1-based.
    pub fn action_index(&self) -> (i: usize)
        ensures
            i == self.action(),
            1 <= i <= script(self.script()).len(),
    {
        proof {
            use_type_invariant(self);
        }
        self.action_index
    }

    /// How long build order `script_index` is.
    pub fn script_len(script_index: usize) -> (len: usize)
        requires
            1 <= script_index <= 4,
        ensures
            len == script(script_index as int).len(),
    {
        match script_index {
            1 => 5,
            2 => 4,
            3 => 3,
            _ => 4,
        }
    }

    fn unit_at(script_index: usize, action_index: usize) -> (unit: UnitType)
        requires
            1 <= script_index <= 4,
            1 <= action_index <= script(script_index as int).len(),
        ensures
            unit == script(script_index as int)[action_index - 1],
    {
        let last = Self::script_len(script_index);
        if action_index < last {
            UnitType::Fighter
        } else if script_index == 4 {
            UnitType::Frigate
        } else {
            UnitType::Bomber
        }
    }
}

/// Whether a factory is an enemy of `player`'s: it belongs to somebody, and
/// not to them.
pub open spec fn is_enemy_factory(world: World, id: ActorId, player: usize) -> bool {
    world.actors()[id.0 as int].player matches Some(p) && p != player
}

/// Whether `player`'s CPU has anybody left to build against: a factory of
/// somebody else's on the tag list. With no one left to fight, it stops
/// building and idles.
///
/// This counts factories that are mid-death -- they stay on the tag list until
/// the cull .
pub fn found_enemy(world: &World, player: usize) -> (found: bool)
    ensures
        found == exists|i: int|
            0 <= i < world.tagged_ids("factory"@).len() && is_enemy_factory(
                *world,
                #[trigger] world.tagged_ids("factory"@)[i],
                player,
            ),
{
    let factories = world.tagged("factory");
    let mut i: usize = 0;
    while i < factories.len()
        invariant
            factories@ == world.tagged_ids("factory"@),
            forall|j: int| 0 <= j < factories@.len() ==> world.valid(#[trigger] factories@[j]),
            i <= factories@.len(),
            forall|j: int| 0 <= j < i ==> !is_enemy_factory(*world, #[trigger] factories@[j], player),
        decreases factories@.len() - i,
    {
        match world.get(factories[i]).player {
            Some(p) => {
                if p != player {
                    return true;
                }
            },
            None => {},
        }
        i = i + 1;
    }
    false
}

/// Every build order is fighters ending in one bigger ship, and the CPU never
/// buys an upgrade.
pub proof fn lemma_orders_are_fighters_then_one_big_ship(script_index: int, action: int)
    requires
        1 <= script_index <= 4,
        1 <= action <= script(script_index).len(),
    ensures
        action < script(script_index).len() ==> script(script_index)[action - 1]
            == UnitType::Fighter,
        action == script(script_index).len() ==> script(script_index)[action - 1]
            != UnitType::Fighter,
        script(script_index)[action - 1] != UnitType::Upgrade,
{
}

/// The four orders, entry by entry: five, four, three and four entries long;
/// the first three end in a bomber and the fourth in a frigate, and every other
/// entry is a fighter.
pub proof fn lemma_the_four_build_orders(script_index: int, action: int)
    ensures
        script(1).len() == 5,
        script(2).len() == 4,
        script(3).len() == 3,
        script(4).len() == 4,
        1 <= script_index <= 4 && 1 <= action <= script(script_index).len() ==> {
            &&& (script(script_index)[action - 1] == UnitType::Frigate <==> (script_index == 4
                && action == 4))
            &&& (script(script_index)[action - 1] == UnitType::Bomber <==> (script_index < 4
                && action == 6 - script_index))
            &&& (script(script_index)[action - 1] == UnitType::Fighter <==> action
                < script(script_index).len())
        },
{
}

} // verus!
