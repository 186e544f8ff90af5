//! The log's classification of ships and projectiles.
//!
//! The end-of-match statistics count by the three ship classes that shoot; a
//! projectile is credited to the class that fires it.
use vstd::prelude::*;

use crate::text::str_eq;

verus! {

/// The three ship classes that shoot, which is what the log counts by.
#[derive(Clone, Copy, Debug, PartialEq, Eq, Structural, Hash)]
pub enum ShipClass {
    Fighter,
    Bomber,
    Frigate,
}

/// The class that fires projectiles of this blueprint, if it is one.
pub open spec fn bullet_class(blueprint: Seq<char>) -> Option<ShipClass> {
    if blueprint == "laser"@ {
        Some(ShipClass::Fighter)
    } else if blueprint == "bomb"@ {
        Some(ShipClass::Bomber)
    } else if blueprint == "missile"@ {
        Some(ShipClass::Frigate)
    } else {
        None
    }
}

/// The class of ships of this blueprint, if it is one that shoots.
pub open spec fn ship_class(blueprint: Seq<char>) -> Option<ShipClass> {
    if blueprint == "fighter"@ {
        Some(ShipClass::Fighter)
    } else if blueprint == "bomber"@ {
        Some(ShipClass::Bomber)
    } else if blueprint == "frigate"@ {
        Some(ShipClass::Frigate)
    } else {
        None
    }
}

/// The label the statistics print a class under.
pub open spec fn class_name(class: ShipClass) -> Seq<char> {
    match class {
        ShipClass::Fighter => "FIGHTER"@,
        ShipClass::Bomber => "BOMBER"@,
        ShipClass::Frigate => "FRIGATE"@,
    }
}

impl ShipClass {
    /// The three classes, in the order the statistics list them.
    pub const ALL: [ShipClass; 3] = [ShipClass::Fighter, ShipClass::Bomber, ShipClass::Frigate];

    /// Which class fired this projectile.
    pub fn of_bullet(blueprint: &str) -> (class: Option<ShipClass>)
        ensures
            class == bullet_class(blueprint@),
    {
        if str_eq(blueprint, "laser") {
            Some(ShipClass::Fighter)
        } else if str_eq(blueprint, "bomb") {
            Some(ShipClass::Bomber)
        } else if str_eq(blueprint, "missile") {
            Some(ShipClass::Frigate)
        } else {
            None
        }
    }

    /// Which class a ship of this blueprint belongs to, if it is one that
    /// shoots. Factories are not.
    pub fn of_ship(blueprint: &str) -> (class: Option<ShipClass>)
        ensures
            class == ship_class(blueprint@),
    {
        if str_eq(blueprint, "fighter") {
            Some(ShipClass::Fighter)
        } else if str_eq(blueprint, "bomber") {
            Some(ShipClass::Bomber)
        } else if str_eq(blueprint, "frigate") {
            Some(ShipClass::Frigate)
        } else {
            None
        }
    }

    pub fn name(self) -> (name: &'static str)
        ensures
            name@ == class_name(self),
    {
        match self {
            ShipClass::Fighter => "FIGHTER",
            ShipClass::Bomber => "BOMBER",
            ShipClass::Frigate => "FRIGATE",
        }
    }
}

/// Each shooting class fires exactly one kind of projectile: the class
/// credited with a projectile determines its blueprint.
pub proof fn lemma_each_class_fires_one_projectile(a: Seq<char>, b: Seq<char>)
    requires
        bullet_class(a) is Some,
        bullet_class(a) == bullet_class(b),
    ensures
        a == b,
{
}

} // verus!
