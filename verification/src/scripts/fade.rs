//! The fade's callback: what a fade does when it finishes.
use vstd::prelude::*;

use crate::world::ActorId;

verus! {

/// The two non-trivial variants are the only two callbacks
/// the scene machine ever passes.
#[derive(Clone, Debug, Default, PartialEq, Eq)]
pub enum FadeCallback {
    /// Nothing happens when the fade finishes.
    #[default]
    Nothing,
    /// The fade-out at the end of player select: clear the menu away and put the
    /// factories in the water. `players` is frozen at the moment the countdown
    /// expired, not re-read when the fade lands.
    BeginMatch { game_flow: ActorId, players: Vec<usize> },
    /// The fade-out after a match ends: print the stats and build a whole new
    /// game.
    Restart,
}

} // verus!
