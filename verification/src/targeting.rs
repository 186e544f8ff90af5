//! How the AI picks something to shoot at.
//!
//! Which enemies are candidates -- the right kind, on another side, on screen
//! and within range -- is a question of positions, answered by the steering.
//! Choosing among them is one draw off the shared stream, taken only when
//! there is something to choose: an empty list leaves the stream untouched.
use vstd::prelude::*;

use crate::rng::{range_spec, LuaRng};
use crate::world::ActorId;

verus! {

/// A random one of `candidates`, or `None` if there are none. Takes one roll
/// of `math.random(1, len)` when there is at least one candidate, and none
/// otherwise.
pub fn pick(rng: &mut LuaRng, candidates: &[ActorId]) -> (picked: Option<ActorId>)
    requires
        candidates@.len() <= i64::MAX,
    ensures
        candidates@.len() == 0 ==> picked is None && final(rng)@ == old(rng)@,
        candidates@.len() > 0 ==> ({
            let (roll, next) = range_spec(old(rng)@, 1, candidates@.len() as i64);
            &&& picked == Some(candidates@[roll - 1])
            &&& final(rng)@ == next
        }),
{
    let n = candidates.len();
    if n == 0 {
        return None;
    }
    let roll = rng.next_range(1, n as i64);
    Some(candidates[(roll - 1) as usize])
}

} // verus!
