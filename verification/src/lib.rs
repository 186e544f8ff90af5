//! Pax Britannica, one-button real-time strategy: the parts of the game that
//! are counting, ordering and bookkeeping, each stated in its contract and
//! proved. The random stream, the actor model and the order a frame runs its
//! scripts in, blueprints and the fresh scene, the input latch, the particle
//! rings, the art catalogue, and the scripts' discrete decisions.
use vstd::prelude::*;

pub mod blueprints;
pub mod log;
pub mod particles;
pub mod resources;
pub mod rng;
pub mod scripts;
pub mod targeting;
mod text;
pub mod the_game;
pub mod the_one_button;
pub mod touch;
pub mod world;

verus! {

} // verus!
