//! The production catalogue: what the one button can buy, and what it costs.
//!
//! Holding the button commits resources -- a fighter's worth on the first
//! frame, then three more a frame while the factory can cover them -- so the
//! committed amount is always a whole number, and letting go buys the dearest
//! unit it has swept strictly past:
//!
//! ```text
//!   cost:  0 ----- 50 --------- 170 --------- 360 --------- 1080
//!          |  none  |  fighter   |   bomber    |   frigate   | upgrade
//! ```
use vstd::prelude::*;

verus! {

/// Resources committed per frame while the button is held.
pub const BUILDING_SPEED: u64 = 3;

/// What the button can buy, cheapest first.
#[derive(Clone, Copy, Debug, PartialEq, Eq, Structural)]
pub enum UnitType {
    Fighter,
    Bomber,
    Frigate,
    /// Not a ship: a permanent increase to this factory's income.
    Upgrade,
}

/// What each unit costs.
pub open spec fn unit_cost(unit: UnitType) -> nat {
    match unit {
        UnitType::Fighter => 50,
        UnitType::Bomber => 170,
        UnitType::Frigate => 360,
        UnitType::Upgrade => 1080,
    }
}

/// The dearest unit that `committed` resources have swept strictly past, if
/// any.
pub open spec fn swept_past(committed: int) -> Option<UnitType> {
    if committed > 1080 {
        Some(UnitType::Upgrade)
    } else if committed > 360 {
        Some(UnitType::Frigate)
    } else if committed > 170 {
        Some(UnitType::Bomber)
    } else if committed > 50 {
        Some(UnitType::Fighter)
    } else {
        None
    }
}

impl UnitType {
    /// What this unit costs.
    pub fn cost(self) -> (cost: u64)
        ensures
            cost == unit_cost(self),
    {
        match self {
            UnitType::Fighter => 50,
            UnitType::Bomber => 170,
            UnitType::Frigate => 360,
            UnitType::Upgrade => 1080,
        }
    }

    /// The unit that letting go of the button buys, having committed
    /// `committed`: the dearest one it has swept strictly past, if any.
    pub fn for_cost(committed: u64) -> (unit: Option<UnitType>)
        ensures
            unit == swept_past(committed as int),
    {
        if committed > 1080 {
            Some(UnitType::Upgrade)
        } else if committed > 360 {
            Some(UnitType::Frigate)
        } else if committed > 170 {
            Some(UnitType::Bomber)
        } else if committed > 50 {
            Some(UnitType::Fighter)
        } else {
            None
        }
    }
}

/// What a held button starts from: the first frame of a hold jumps straight
/// to a fighter's worth (so the needle never sits in the dead quarter while
/// the button is down), provided the factory is not in debt.
pub open spec fn hold_start(committed: int, amount_floor: int) -> int {
    if committed == 0 && amount_floor >= 0 {
        unit_cost(UnitType::Fighter) as int
    } else {
        committed
    }
}

/// The commitment after one held frame: from `hold_start`, it creeps on by
/// `BUILDING_SPEED` when the resources exceed what it would then be, less one.
/// That bound is a whole number, so the test is made on the ceiling of the
/// resources: an amount exceeds a whole number exactly when its ceiling does.
pub open spec fn held_commitment(committed: int, amount_floor: int, amount_ceil: int) -> int {
    let start = hold_start(committed, amount_floor);
    if amount_ceil > start + BUILDING_SPEED - 1 {
        start + BUILDING_SPEED
    } else {
        start
    }
}

/// One frame of the button, for a factory that has committed `committed` and
/// holds an amount of resources lying between `amount_floor` and
/// `amount_ceil`, its floor and its ceiling.
///
/// Held, the commitment moves on as `held_commitment` says and nothing is
/// bought. Let go, the commitment drops back to zero and the dearest unit it
/// had swept strictly past, if any, is bought.
///
/// The two tests made against the resources are against whole numbers, which
/// is why the floor and the ceiling decide them exactly: an amount is at
/// least zero when its floor is, and more than a whole number when its
/// ceiling is.
pub fn production_step(committed: u64, held: bool, amount_floor: i64, amount_ceil: i64) -> (step: (
    u64,
    Option<UnitType>,
))
    requires
        committed <= u64::MAX - BUILDING_SPEED,
    ensures
        held ==> step.0 == held_commitment(committed as int, amount_floor as int, amount_ceil as int)
            && step.1 is None,
        !held ==> step.0 == 0 && step.1 == swept_past(committed as int),
{
    if held {
        let start: u64 = if committed == 0 && amount_floor >= 0 {
            UnitType::Fighter.cost()
        } else {
            committed
        };
        let bound: i128 = start as i128 + BUILDING_SPEED as i128 - 1;
        if amount_ceil as i128 > bound {
            (start + BUILDING_SPEED, None)
        } else {
            (start, None)
        }
    } else {
        (0, UnitType::for_cost(committed))
    }
}

/// Holding the button never carries the commitment past what the resources
/// cover, beyond the fighter's worth a hold starts from; it never gives any
/// back; and once it has caught up with the resources it stays put.
pub proof fn lemma_a_hold_goes_only_as_far_as_the_resources(
    committed: int,
    amount_floor: int,
    amount_ceil: int,
)
    ensures
        held_commitment(committed, amount_floor, amount_ceil) >= hold_start(committed, amount_floor),
        held_commitment(committed, amount_floor, amount_ceil) <= hold_start(committed, amount_floor)
            || held_commitment(committed, amount_floor, amount_ceil) <= amount_ceil,
        committed != 0 && committed + BUILDING_SPEED - 1 >= amount_ceil ==> held_commitment(
            committed,
            amount_floor,
            amount_ceil,
        ) == committed,
{
}

/// Letting go buys the dearest unit whose price has been passed, and only
/// once some price has been: stopping exactly on a price
/// buys the cheaper unit below it, and stopping on a fighter's price buys
/// nothing.
pub proof fn lemma_release_buys_only_what_was_paid_for(committed: int)
    ensures
        swept_past(committed) matches Some(unit) ==> unit_cost(unit) < committed,
        swept_past(committed) matches Some(unit) ==> forall|u: UnitType|
            #[trigger] unit_cost(u) < committed ==> unit_cost(u) <= unit_cost(unit),
        committed > 50 <==> swept_past(committed) is Some,
        swept_past(unit_cost(UnitType::Bomber) as int) == Some(UnitType::Fighter),
        swept_past(unit_cost(UnitType::Frigate) as int) == Some(UnitType::Bomber),
        swept_past(unit_cost(UnitType::Upgrade) as int) == Some(UnitType::Frigate),
{
}

} // verus!
