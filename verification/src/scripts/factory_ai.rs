//! How a factory moves: it doesn't, much -- full thrust and a constant turn,
//! which the steering carries out. The script is also a marker: a ship that
//! carries it dies the drawn-out death of a factory.
use vstd::prelude::*;

verus! {

/// The factory's steering script. It keeps no state of its own.
#[derive(Clone, Copy, Debug, Default, PartialEq, Eq, Structural)]
pub struct FactoryAi {}

} // verus!
