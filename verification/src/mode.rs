//! The house-rule variants of the game.

use vstd::prelude::*;

verus! {

/// The variant that decides which payout table applies. A game keeps the variant that it was
/// made with.
#[derive(Debug, Clone, Copy, PartialEq, Eq, Structural)]
pub enum GameMode {
    Classic,
    NoCommission,
    Speed,
    EzBaccarat,
}

impl GameMode {
    /// The variant that follows this one when the variants are gone through in turn: classic,
    /// without commission, speed, EZ, and classic again.
    pub open spec fn spec_next(self) -> GameMode {
        match self {
            GameMode::Classic => GameMode::NoCommission,
            GameMode::NoCommission => GameMode::Speed,
            GameMode::Speed => GameMode::EzBaccarat,
            GameMode::EzBaccarat => GameMode::Classic,
        }
    }

    /// The variant that follows this one when the variants are gone through in turn.
    pub fn next(self) -> (mode: GameMode)
        ensures
            mode == self.spec_next(),
    {
        match self {
            GameMode::Classic => GameMode::NoCommission,
            GameMode::NoCommission => GameMode::Speed,
            GameMode::Speed => GameMode::EzBaccarat,
            GameMode::EzBaccarat => GameMode::Classic,
        }
    }
}

/// Going through the variants in turn comes back to the first after four steps, and not
/// before.
pub proof fn lemma_modes_cycle(mode: GameMode)
    ensures
        mode.spec_next().spec_next().spec_next().spec_next() == mode,
        mode.spec_next() != mode,
        mode.spec_next().spec_next() != mode,
        mode.spec_next().spec_next().spec_next() != mode,
{
}

} // verus!
