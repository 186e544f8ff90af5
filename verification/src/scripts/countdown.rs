//! The countdown's callback: what the countdown does when it runs out.
use vstd::prelude::*;

use crate::world::ActorId;

verus! {

/// What the countdown does when it reaches zero. Only ever `start_game`.
#[derive(Clone, Copy, Debug, Default, PartialEq, Eq)]
pub enum CountdownCallback {
    #[default]
    Nothing,
    /// `game_flow`'s `start_game`, addressed by the actor that owns it.
    StartGame(ActorId),
}

} // verus!
