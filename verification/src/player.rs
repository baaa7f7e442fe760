use vstd::prelude::*;

use crate::player_symbol::PlayerSymbol;

verus! {

/// A participant in the game: the symbol it currently plays and its fixed
/// 1-based seat number. The seat number never changes after construction;
/// the symbol may be reassigned during game setup.
#[derive(Copy, Clone, PartialEq, Eq, Structural, Debug)]
pub struct Player {
    pub symbol: PlayerSymbol,
    pub number: u8,
}

impl Player {
    /// Creates a player with the given symbol and seat number. The seat
    /// number is caller-supplied; the two players of a game are expected to
    /// be seated 1 and 2, which is a caller contract, not checked here.
    pub fn new(symbol: PlayerSymbol, number: u8) -> (p: Player)
        ensures
            p == (Player { symbol, number }),
    {
        Player { symbol, number }
    }

    /// The symbol this player currently plays.
    pub fn symbol(&self) -> (s: PlayerSymbol)
        ensures
            s == self.symbol,
    {
        self.symbol
    }

    /// Reassigns this player's symbol; the seat number is untouched. Keeping
    /// the two players' symbols complementary is the caller's business.
    pub fn set_symbol(&mut self, symbol: PlayerSymbol)
        ensures
            *final(self) == (Player { symbol, number: old(self).number }),
    {
        self.symbol = symbol;
    }

    /// A borrow of this player itself.
    pub fn current_player(&self) -> (p: &Player)
        ensures
            p == self,
    {
        self
    }

    /// The fixed 1-based seat number.
    pub fn get_player_number(&self) -> (n: u8)
        ensures
            n == self.number,
    {
        self.number
    }
}

} // verus!
