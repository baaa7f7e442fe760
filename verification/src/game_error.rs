use vstd::prelude::*;

verus! {

/// The recoverable failures the game core reports to its caller. None of
/// them is fatal: the surrounding console layer re-prompts or aborts setup
/// as it sees fit.
#[derive(Copy, Clone, PartialEq, Eq, Structural, Debug)]
pub enum GameError {
    /// A placement named a coordinate outside the 3x3 grid.
    OutOfBounds,
    /// A placement named a cell that already holds a symbol.
    CellOccupied,
    /// Setup tried to assign a player the symbol it already has.
    SymbolUnchanged,
    /// A turn advance was attempted while the player list is empty.
    /// Unreachable under normal construction, but a defined failure.
    NoPlayersAvailable,
}

} // verus!
