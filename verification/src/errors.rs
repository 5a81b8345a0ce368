//! Failure kinds of a construction attempt.
//!
//! Every variant is an expected, recoverable outcome of a single attempt,
//! never fatal; a failed attempt leaves all state untouched.

use vstd::prelude::*;

verus! {

/// Why a construction attempt, or a direct grid mutation, was rejected.
#[derive(Clone, Copy, PartialEq, Eq, Structural, Debug)]
pub enum BuildError {
    /// The pointer was not within the viewport at trigger time.
    PointerOutOfBounds,
    /// The resolved coordinate corresponds to no cell in the grid
    /// (including negative axial coordinates).
    NoTileUnderCursor,
    /// The target cell exists but is occupied or otherwise marked
    /// unbuildable.
    CellNotBuildable,
    /// The selected tower's cost exceeds the current gold balance.
    InsufficientFunds,
    /// A direct `set_occupant` found the cell already occupied.
    CellOccupied,
    /// A direct `clear_occupant` found no occupant to clear.
    CellEmpty,
}

} // verus!
