//! A falling-sand cellular automaton: a fixed grid of particles that move and
//! react by local rules, with every rule stated as a contract over a
//! mathematical model of the grid.
//!
//! # The model
//!
//! A [`world::World`] is seen as a [`grid::Grid`]: its cells in row-major
//! order, its environment, and the state of the scheduler. Every function
//! that changes a world says which grid it leads to. The rules are built from
//! a handful of edits of a grid (`put`, `exchange`, `warm`, `record`), so a
//! statement about all rules comes down to a statement about these.
//!
//! # Chance
//!
//! Chance enters in one place, a draw from the thread's generator. Whatever
//! chance decides in the update of one cell is gathered in [`rng::Draws`],
//! and every rule takes its draws as an argument: with the draws given, a
//! tick is a function of the grid. [`world::World::tick`] draws as it goes;
//! `tick_with` takes the draws of every cell from its caller.
//!
//! # Numbers
//!
//! Temperatures and pressures are fixed-point integers, in thousandths of a
//! unit, velocities are whole numbers, and colours are blended in whole
//! numbers, so that every rule is decided by integer arithmetic. A snapshot
//! holds these integers in its fields of four bytes: a stream in which the
//! same fields hold floating-point numbers has the right length and is
//! read, but its temperatures and velocities then mean something else.
//!
//! # Sweeps
//!
//! A tick visits every cell once, column by column, from the bottom up. A
//! particle that a rule writes is stamped with the clock of the running
//! sweep, and the sweep passes over stamped particles, so that none moves
//! twice in a tick. The game of life needs to know which cells were alive
//! when the sweep began: a cell that is born or dies in a sweep carries a
//! mark beside the stamp, and counts as what it was.
//!
//! # What holds of every tick
//!
//! [`laws`] proves that walls stand, that motion conserves every material,
//! what each reaction yields in sand and water, that lost water is found
//! as steam, salt water or salt, and that a snapshot gives back the grid it
//! was taken from. [`runs`] follows a small world through its ticks, for
//! every outcome of chance.

pub mod api;
pub mod codec;
pub mod grid;
pub mod group;
pub mod laws;
pub mod motion;
pub mod palette;
pub mod particle;
pub mod paths;
pub mod picture;
pub mod prelude;
pub mod rng;
pub mod rules;
pub mod runs;
pub mod sweep;
pub mod variant;
pub mod variant_type;
pub mod world;

use vstd::prelude::*;

verus! {

/// A value that has a form in bytes.
pub trait Serialize: Sized {
    /// The bytes of a value.
    spec fn encoding(&self) -> Seq<u8>;

    /// Whether bytes can be read as a value.
    spec fn decodable(data: Seq<u8>) -> bool;

    /// The value that bytes stand for.
    spec fn decoding(data: Seq<u8>) -> Self;

    fn serialize(&self) -> (bytes: Vec<u8>)
        ensures
            bytes@ == self.encoding(),
    ;

    fn deserialize(data: &[u8]) -> (value: Self)
        requires
            Self::decodable(data@),
        ensures
            value == Self::decoding(data@),
    ;

    /// The bytes of a value can be read, and read as that value.
    proof fn round_trip(&self)
        ensures
            Self::decodable(self.encoding()),
            Self::decoding(self.encoding()) == *self,
    ;
}

} // verus!
