//! The menu selector's callback: what a menu factory does the moment its
//! player joins.
use vstd::prelude::*;

use crate::world::ActorId;

verus! {

/// Only ever the countdown's `reset_counter`, and only once the countdown
/// exists -- the first player to join is what creates it.
#[derive(Clone, Copy, Debug, Default, PartialEq, Eq)]
pub enum SelectorCallback {
    #[default]
    Nothing,
    ResetCountdown(ActorId),
}

/// Whether this frame is the one on which the prompt's player joins: the
/// first frame their button is held. Once picked, a prompt never joins again,
/// so its callback fires at most once.
pub fn joins(picked: bool, held: bool) -> (joining: bool)
    ensures
        joining == (!picked && held),
{
    !picked && held
}

} // verus!
