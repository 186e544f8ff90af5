//! The fighter's plan: charge, empty the magazine, run away, repeat.
//!
//! Distances, bearings and the aim are geometry, worked out by the steering;
//! what the fighter remembers from frame to frame, when it must look for a new
//! target, and when it switches between charging and running are decided here.
use vstd::prelude::*;

use crate::world::{ActorId, World};

verus! {

#[derive(Clone, Copy, Debug, PartialEq, Eq, Structural)]
pub struct FighterAi {
    /// True while reloading and keeping its distance.
    pub running: bool,
    pub target: Option<ActorId>,
    /// Last frame's on-screen state; leaving the screen forces a retarget.
    pub on_screen: bool,
}

impl FighterAi {
    /// A fresh fighter: charging, with no target, and counted as on screen, so
    /// one spawned offscreen retargets on its first frame.
    pub fn new() -> (ai: Self)
        ensures
            !ai.running,
            ai.target is None,
            ai.on_screen,
    {
        FighterAi { running: false, target: None, on_screen: true }
    }

    /// Whether the target is gone: never had one, or it has died.
    pub fn target_gone(&self, world: &World) -> (gone: bool)
        requires
            self.target matches Some(t) ==> world.valid(t),
        ensures
            gone == match self.target {
                None => true,
                Some(t) => world.actors()[t.0 as int].dead,
            },
    {
        match self.target {
            None => true,
            Some(t) => world.is_dead(t),
        }
    }

    /// Whether the fighter must retarget this frame without rolling for it:
    /// it has just left the screen, or its target is gone. Only when neither
    /// holds does it roll for a retarget on a whim, so only then does it take
    /// a draw off the shared stream.
    pub fn must_retarget(&self, now_on_screen: bool, target_gone: bool) -> (must: bool)
        ensures
            must == ((self.on_screen && !now_on_screen) || target_gone),
    {
        (self.on_screen && !now_on_screen) || target_gone
    }

    /// The end of a frame: a running fighter turns to charge again once it has
    /// a round and is far enough away; a charging one runs once its magazine
    /// is empty (after any shot it took this frame).
    pub fn settle(&mut self, magazine_empty: bool, too_close: bool)
        ensures
            final(self).running == if old(self).running {
                magazine_empty || too_close
            } else {
                magazine_empty
            },
            final(self).target == old(self).target,
            final(self).on_screen == old(self).on_screen,
    {
        if self.running {
            if !magazine_empty && !too_close {
                self.running = false;
            }
        } else if magazine_empty {
            self.running = true;
        }
    }
}

} // verus!
