use vstd::prelude::*;

verus! {

/// How many seats a human fills. SinglePlayer is accepted and recorded but
/// has no behavioural effect in this core: no computer opponent exists, the
/// variant is an open extension point for one.
#[derive(Copy, Clone, PartialEq, Eq, Structural, Debug)]
pub enum GameMode {
    SinglePlayer,
    TwoPlayer,
}

} // verus!
