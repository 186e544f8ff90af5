//! The bomber's plan of attack: close in, turn broadside, unload
//! four bombs, leave.
//!
//! When to close in, turn and leave is a question of distances and bearings,
//! answered by the steering; the volley itself is counted here: a bomb every
//! [`COOLDOWN_DURATION`] frames while shooting, [`MAX_SHOTS`] of them, then
//! away.
use vstd::prelude::*;

use crate::world::ActorId;

verus! {

/// Frames between bombs.
pub const COOLDOWN_DURATION: i32 = 40;

/// Bombs in a volley.
pub const MAX_SHOTS: i32 = 4;

/// Where the bomber is in its plan of attack.
#[derive(Clone, Copy, Debug, PartialEq, Eq, Structural)]
pub enum BomberState {
    Approach,
    Turn,
    Shoot,
    MoveAway,
}

impl BomberState {
    /// The start of a frame: a target that has drawn too far off sends the
    /// bomber back to approaching it, whatever it was doing.
    pub fn recalled(self, too_far: bool) -> (state: BomberState)
        ensures
            state == if too_far {
                BomberState::Approach
            } else {
                self
            },
    {
        if too_far {
            BomberState::Approach
        } else {
            self
        }
    }

    /// The end of a frame: approaching turns broadside once close enough,
    /// turning starts shooting once broadside, shooting leaves after the
    /// volley's last bomb, and leaving goes on until a recall.
    pub fn after(self, close_enough: bool, broadside: bool, last_bomb: bool) -> (state: BomberState)
        ensures
            state == plan_step(self, close_enough, broadside, last_bomb),
    {
        match self {
            BomberState::Approach => if close_enough {
                BomberState::Turn
            } else {
                BomberState::Approach
            },
            BomberState::Turn => if broadside {
                BomberState::Shoot
            } else {
                BomberState::Turn
            },
            BomberState::Shoot => if last_bomb {
                BomberState::MoveAway
            } else {
                BomberState::Shoot
            },
            BomberState::MoveAway => BomberState::MoveAway,
        }
    }
}

/// One end-of-frame step of the plan, from `state`: approaching turns
/// broadside once close enough, turning starts shooting once broadside,
/// shooting leaves after the volley's last bomb, and leaving goes on.
pub open spec fn plan_step(state: BomberState, close_enough: bool, broadside: bool, last_bomb: bool) -> BomberState {
    match state {
        BomberState::Approach => if close_enough { BomberState::Turn } else { BomberState::Approach },
        BomberState::Turn => if broadside { BomberState::Shoot } else { BomberState::Turn },
        BomberState::Shoot => if last_bomb { BomberState::MoveAway } else { BomberState::Shoot },
        BomberState::MoveAway => BomberState::MoveAway,
    }
}

/// The plan runs one way: within a frame the bomber moves at most one step
/// along approach, turn, shoot, leave; it only shoots after turning, only
/// leaves on its last bomb, and only a recall brings it back to the start.
pub proof fn lemma_the_plan_runs_one_way(state: BomberState, close_enough: bool, broadside: bool, last_bomb: bool)
    ensures
        plan_step(state, close_enough, broadside, last_bomb) == BomberState::Shoot ==> state
            == BomberState::Turn || state == BomberState::Shoot,
        plan_step(state, close_enough, broadside, last_bomb) == BomberState::MoveAway && state
            != BomberState::MoveAway ==> state == BomberState::Shoot && last_bomb,
        plan_step(state, close_enough, broadside, last_bomb) == BomberState::Approach ==> state
            == BomberState::Approach,
{
}

/// What one frame of shooting does.
#[derive(Clone, Copy, Debug, PartialEq, Eq, Structural)]
pub enum VolleyTick {
    /// Still cooling down.
    Wait,
    /// Drop a bomb; the volley goes on.
    Fire,
    /// Drop the volley's last bomb, and move away.
    FireLast,
}

/// The volley's two counters: frames until the next bomb, and bombs left.
#[derive(Clone, Copy, Debug, PartialEq, Eq)]
pub struct Volley {
    cooldown_timer: i32,
    shots_counter: i32,
}

impl Volley {
    #[verifier::type_invariant]
    spec fn inv(self) -> bool {
        &&& 1 <= self.cooldown_timer <= COOLDOWN_DURATION
        &&& 1 <= self.shots_counter <= MAX_SHOTS
    }

    /// Frames until the next bomb.
    pub closed spec fn cooldown(self) -> int {
        self.cooldown_timer as int
    }

    /// Bombs left in this volley.
    pub closed spec fn shots(self) -> int {
        self.shots_counter as int
    }

    /// A volley not yet started: a full cooldown before the first of all its
    /// bombs.
    pub fn new() -> (volley: Self)
        ensures
            volley.cooldown() == COOLDOWN_DURATION,
            volley.shots() == MAX_SHOTS,
    {
        Volley { cooldown_timer: COOLDOWN_DURATION, shots_counter: MAX_SHOTS }
    }

    /// One frame in the `Shoot` state. When the cooldown runs out a bomb is
    /// dropped and the cooldown starts again; after the last bomb the volley
    /// is rearmed for next time, and the bomber leaves.
    pub fn tick(&mut self) -> (tick: VolleyTick)
        ensures
            ticks(*old(self), tick, *final(self)),
    {
        proof {
            use_type_invariant(&*self);
        }
        if self.cooldown_timer > 1 {
            self.cooldown_timer = self.cooldown_timer - 1;
            return VolleyTick::Wait;
        }
        if self.shots_counter > 1 {
            *self = Volley { cooldown_timer: COOLDOWN_DURATION, shots_counter: self.shots_counter - 1 };
            VolleyTick::Fire
        } else {
            *self = Volley { cooldown_timer: COOLDOWN_DURATION, shots_counter: MAX_SHOTS };
            VolleyTick::FireLast
        }
    }

    /// Frames until the next bomb.
    pub fn cooldown_timer(&self) -> (t: i32)
        ensures
            t == self.cooldown(),
    {
        self.cooldown_timer
    }

    /// Bombs left in this volley.
    pub fn shots_counter(&self) -> (n: i32)
        ensures
            n == self.shots(),
    {
        self.shots_counter
    }
}

/// One frame of shooting, taking the volley from `before` to `after`.
pub open spec fn ticks(before: Volley, tick: VolleyTick, after: Volley) -> bool {
    if before.cooldown() > 1 {
        &&& tick == VolleyTick::Wait
        &&& after.cooldown() == before.cooldown() - 1
        &&& after.shots() == before.shots()
    } else if before.shots() > 1 {
        &&& tick == VolleyTick::Fire
        &&& after.cooldown() == COOLDOWN_DURATION
        &&& after.shots() == before.shots() - 1
    } else {
        &&& tick == VolleyTick::FireLast
        &&& after.cooldown() == COOLDOWN_DURATION
        &&& after.shots() == MAX_SHOTS
    }
}

/// The volley's whole course from a given point: the frames still to wait
/// before its last bomb, counting the frame that drops it.
pub open spec fn frames_to_last_bomb(v: Volley) -> int {
    v.cooldown() + (v.shots() - 1) * COOLDOWN_DURATION
}

/// Each frame of shooting brings the last bomb one frame nearer, and the
/// frame that drops it is exactly the one with no frames to go: a fresh
/// volley is four bombs, forty frames apart, the last on frame 160.
pub proof fn lemma_volley_counts_down(before: Volley, tick: VolleyTick, after: Volley)
    requires
        ticks(before, tick, after),
        1 <= before.cooldown() <= COOLDOWN_DURATION,
        1 <= before.shots() <= MAX_SHOTS,
    ensures
        tick == VolleyTick::FireLast <==> frames_to_last_bomb(before) == 1,
        tick != VolleyTick::FireLast ==> frames_to_last_bomb(after) == frames_to_last_bomb(before) - 1,
        tick == VolleyTick::FireLast ==> frames_to_last_bomb(after) == MAX_SHOTS * COOLDOWN_DURATION,
        (tick != VolleyTick::Wait) <==> before.cooldown() == 1,
{
}

/// Whether a bomber must look for a new target without rolling for it: it
/// has none. With a target -- live or dead -- it rolls for a whim first and
/// only then asks whether the target has died, so the roll is drawn exactly
/// when it has a target.
pub fn must_retarget(target: Option<ActorId>) -> (must: bool)
    ensures
        must == (target is None),
{
    target.is_none()
}

} // verus!
