//! A ship's choice of art, and a factory's drawn-out death.
//!
//! A ship wears its owner's colours. Most ships die at once, but a factory
//! smoulders for [`DEATH_COUNTER`] frames first, with secondary explosions
//! at randomly spaced intervals, before a final flurry takes it. Where those
//! explosions land, and how the wreck fades, is worked out by the steering;
//! when they happen is counted here.
use vstd::prelude::*;

use crate::resources::SpriteId;
use crate::rng::{range_spec, LuaRng};

verus! {

/// Which sprite family a ship wears.
#[derive(Clone, Copy, Debug, PartialEq, Eq, Structural)]
pub enum ShipSprites {
    Fighter,
    Bomber,
    Frigate,
    Factory,
}

impl ShipSprites {
    /// This family's art in `player`'s colours.
    pub fn for_player(self, player: usize) -> (id: SpriteId)
        ensures
            id == match self {
                ShipSprites::Fighter => SpriteId::Fighter(player),
                ShipSprites::Bomber => SpriteId::Bomber(player),
                ShipSprites::Frigate => SpriteId::Frigate(player),
                ShipSprites::Factory => SpriteId::Factory(player),
            },
    {
        match self {
            ShipSprites::Fighter => SpriteId::Fighter(player),
            ShipSprites::Bomber => SpriteId::Bomber(player),
            ShipSprites::Frigate => SpriteId::Frigate(player),
            ShipSprites::Factory => SpriteId::Factory(player),
        }
    }
}

/// Players' ships are told apart by colour: two players' art of the same
/// family is never the same image, and two families never share one.
pub proof fn lemma_ship_art_is_per_player(a: ShipSprites, b: ShipSprites, p: usize, q: usize)
    requires
        a != b || p != q,
    ensures
        (match a {
            ShipSprites::Fighter => SpriteId::Fighter(p),
            ShipSprites::Bomber => SpriteId::Bomber(p),
            ShipSprites::Frigate => SpriteId::Frigate(p),
            ShipSprites::Factory => SpriteId::Factory(p),
        }) != (match b {
            ShipSprites::Fighter => SpriteId::Fighter(q),
            ShipSprites::Bomber => SpriteId::Bomber(q),
            ShipSprites::Frigate => SpriteId::Frigate(q),
            ShipSprites::Factory => SpriteId::Factory(q),
        }),
{
}

/// Frames a factory spends dying before it is finally removed.
pub const DEATH_COUNTER: i32 = 100;

/// The spacing of a dying factory's first secondary explosions.
pub const FIRST_EXPLOSION_SPACING: i32 = 10;

/// A factory's death, counted: frames still to smoulder, and the spacing of
/// its secondary explosions.
#[derive(Clone, Copy, Debug, PartialEq, Eq)]
pub struct FactoryDeath {
    death_counter: i32,
    next_explosion: i32,
}

impl FactoryDeath {
    #[verifier::type_invariant]
    spec fn inv(self) -> bool {
        &&& 0 <= self.death_counter <= DEATH_COUNTER
        &&& 6 <= self.next_explosion <= 15
    }

    /// Frames still to smoulder before the finale.
    pub closed spec fn frames_left(self) -> int {
        self.death_counter as int
    }

    /// The spacing of the secondary explosions: one goes off on each frame
    /// whose count of frames left is a multiple of it.
    pub closed spec fn spacing(self) -> int {
        self.next_explosion as int
    }

    /// A factory not yet dying: a hundred frames to go, explosions ten apart.
    pub fn new() -> (death: Self)
        ensures
            death.frames_left() == DEATH_COUNTER,
            death.spacing() == FIRST_EXPLOSION_SPACING,
    {
        FactoryDeath { death_counter: DEATH_COUNTER, next_explosion: FIRST_EXPLOSION_SPACING }
    }

    /// Whether the smouldering is over, so that this frame is the finale.
    pub fn over(&self) -> (over: bool)
        ensures
            over == (self.frames_left() == 0),
    {
        self.death_counter == 0
    }

    /// Whether a secondary explosion goes off this frame.
    pub fn explodes(&self) -> (explodes: bool)
        ensures
            explodes == (self.frames_left() % self.spacing() == 0),
    {
        proof {
            use_type_invariant(self);
        }
        self.death_counter % self.next_explosion == 0
    }

    /// After an explosion, the spacing of the next ones: one draw, from 6 to
    /// 15.
    pub fn reroll(&mut self, rng: &mut LuaRng)
        ensures
            final(self).spacing() == range_spec(old(rng)@, 6, 15).0,
            6 <= final(self).spacing() <= 15,
            final(rng)@ == range_spec(old(rng)@, 6, 15).1,
            final(self).frames_left() == old(self).frames_left(),
    {
        proof {
            use_type_invariant(&*self);
        }
        let spacing = rng.next_range(6, 15);
        *self = FactoryDeath { death_counter: self.death_counter, next_explosion: spacing as i32 };
    }

    /// One frame of smouldering passes.
    pub fn count_down(&mut self)
        requires
            old(self).frames_left() > 0,
        ensures
            final(self).frames_left() == old(self).frames_left() - 1,
            final(self).spacing() == old(self).spacing(),
    {
        proof {
            use_type_invariant(&*self);
        }
        *self = FactoryDeath { death_counter: self.death_counter - 1, next_explosion: self.next_explosion };
    }
}

} // verus!
