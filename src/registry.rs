use vstd::prelude::*;
use crate::error::BetGame;
use crate::state::GlobalState;

verus! {

/// What allocating `expected_index` does to the registry: the index must be
/// the next one, and the counter must have room to grow.
pub open spec fn allocate_outcome(g: GlobalState, expected_index: u32) -> (GlobalState, Result<u32, BetGame>) {
    if expected_index != g.total_round {
        (g, Err(BetGame::InvalidRoundIndex))
    } else if g.total_round == u32::MAX {
        (g, Err(BetGame::ArithmeticOverflow))
    } else {
        (GlobalState { total_round: (g.total_round + 1) as u32 }, Ok(g.total_round))
    }
}

impl GlobalState {
    /// A registry with no rounds yet.
    pub fn new() -> (r: GlobalState)
        ensures
            r.total_round == 0,
    {
        GlobalState { total_round: 0 }
    }

    /// Hands out the next round index, provided the caller expected it.
    pub fn allocate_round_index(&mut self, expected_index: u32) -> (r: Result<u32, BetGame>)
        ensures
            (*final(self), r) == allocate_outcome(*old(self), expected_index),
    {
        if expected_index != self.total_round {
            return Err(BetGame::InvalidRoundIndex);
        }
        if self.total_round == u32::MAX {
            return Err(BetGame::ArithmeticOverflow);
        }
        let index = self.total_round;
        self.total_round = self.total_round + 1;
        Ok(index)
    }
}

} // verus!
