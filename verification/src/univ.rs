//! The constants of the universe.

use vstd::prelude::*;

verus! {

/// The side of the square galaxy: coordinates run over `0..GAL_SIZE`.
pub const GAL_SIZE: i32 = 10000;

/// The number of stations that a new universe starts with.
pub const STARTING_ENTITIES: i32 = 10000;

/// The constants of a universe.
#[derive(Debug, Clone, Copy)]
pub struct Univ {
    pub gal_size: i32,
    pub starting_entities: i32,
}

impl Univ {
    /// The constants of the standard universe.
    pub fn standard() -> (univ: Univ)
        ensures
            univ.gal_size == GAL_SIZE,
            univ.starting_entities == STARTING_ENTITIES,
    {
        Univ { gal_size: GAL_SIZE, starting_entities: STARTING_ENTITIES }
    }
}

} // verus!
