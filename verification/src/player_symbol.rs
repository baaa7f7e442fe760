use vstd::prelude::*;

verus! {

/// The mark a player places on the board: a cross ("X") or a nought ("O").
#[derive(Copy, Clone, PartialEq, Eq, Structural, Debug)]
pub enum PlayerSymbol {
    Cross,
    Nought,
}

impl PlayerSymbol {
    /// The symbol the other player holds: Cross and Nought swap.
    pub open spec fn spec_opposite(&self) -> PlayerSymbol {
        match self {
            PlayerSymbol::Cross => PlayerSymbol::Nought,
            PlayerSymbol::Nought => PlayerSymbol::Cross,
        }
    }

    /// Returns the opposite symbol: Cross becomes Nought and Nought becomes
    /// Cross. Total, with no error cases.
    #[verifier::when_used_as_spec(spec_opposite)]
    pub fn opposite(&self) -> (r: PlayerSymbol)
        ensures
            r == self.spec_opposite(),
    {
        match self {
            PlayerSymbol::Cross => PlayerSymbol::Nought,
            PlayerSymbol::Nought => PlayerSymbol::Cross,
        }
    }

    /// The single character under which the symbol is displayed.
    pub fn as_char(&self) -> (c: char)
        ensures
            c == (if self is Cross { 'X' } else { 'O' }),
    {
        match self {
            PlayerSymbol::Cross => 'X',
            PlayerSymbol::Nought => 'O',
        }
    }
}

} // verus!
