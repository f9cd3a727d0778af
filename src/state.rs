use vstd::prelude::*;
use crate::identity::Identity;

verus! {

/// Length of a round, in seconds: 24 hours.
pub const ROUND_DURATION: i64 = 86400;

/// The stake each player deposits, in lamports (0.01 SOL).
pub const FEE: u64 = 10000000;

/// The registry of rounds: how many have been created so far.
#[derive(Clone, Copy, Debug, PartialEq, Eq, Structural)]
pub struct GlobalState {
    pub total_round: u32,
}

/// The rounds an account has taken part in.
#[derive(Clone, Debug, Default)]
pub struct UserRoundList {
    pub round_indexs: Vec<u32>,
}

/// The shared escrow that holds every round's deposits.
#[derive(Clone, Copy, Debug, PartialEq, Eq, Structural)]
pub struct Vault {
    pub balance: u64,
}

/// A ledger account of one party: who it belongs to and its balance.
#[derive(Clone, Copy, Debug, PartialEq, Eq, Structural)]
pub struct Wallet {
    pub key: Identity,
    pub lamports: u64,
}

/// One round of the game.
#[derive(Clone, Copy, Debug, PartialEq, Eq, Structural)]
pub struct RoundState {
    pub round_index: u32,
    pub creator: Identity,
    pub joiner: Identity,
    pub is_creator_updated: bool,
    pub is_joiner_updated: bool,
    pub creator_score: u32,
    pub joiner_score: u32,
    pub start_time: i64,
    pub join_time: i64,
    pub winner: Identity,
    pub timeout: i64,
    pub is_finished: bool,
    pub is_claimed: bool,
}

/// The winner of a finished round: the side with the strictly greater score,
/// or no one on equal scores.
pub open spec fn decide_winner(creator: Identity, joiner: Identity, creator_score: u32, joiner_score: u32) -> Identity {
    if creator_score > joiner_score {
        creator
    } else if creator_score < joiner_score {
        joiner
    } else {
        Identity::unset_spec()
    }
}

impl RoundState {
    pub open spec fn has_joiner(self) -> bool {
        self.joiner.is_set_spec()
    }

    pub open spec fn both_updated(self) -> bool {
        self.is_creator_updated && self.is_joiner_updated
    }

    /// The round was closed by refunding the creator: no one joined.
    pub open spec fn is_refunded(self) -> bool {
        self.is_finished && !self.has_joiner()
    }

    /// The winner that the round's current state calls for.
    pub open spec fn expected_winner(self) -> Identity {
        if self.is_finished && self.both_updated() {
            decide_winner(self.creator, self.joiner, self.creator_score, self.joiner_score)
        } else {
            Identity::unset_spec()
        }
    }

    /// What every reachable round satisfies.
    pub open spec fn wf(self) -> bool {
        &&& self.creator.is_set_spec()
        &&& self.timeout == self.start_time + ROUND_DURATION
        &&& (self.is_joiner_updated ==> self.has_joiner())
        &&& (self.is_finished ==> self.both_updated() || !self.has_joiner())
        &&& self.winner == self.expected_winner()
        &&& (self.is_claimed ==> self.is_finished && self.both_updated())
    }

    /// The lamports the vault holds on this round's account.
    pub open spec fn escrow_spec(self) -> nat {
        if self.is_claimed || self.is_refunded() {
            0
        } else if self.has_joiner() {
            (2 * FEE) as nat
        } else {
            FEE as nat
        }
    }

    /// A round freshly created by `creator` at time `now`.
    pub open spec fn fresh_spec(round_index: u32, creator: Identity, now: i64) -> RoundState {
        RoundState {
            round_index,
            creator,
            joiner: Identity::unset_spec(),
            is_creator_updated: false,
            is_joiner_updated: false,
            creator_score: 0,
            joiner_score: 0,
            start_time: now,
            join_time: 0,
            winner: Identity::unset_spec(),
            timeout: (now + ROUND_DURATION) as i64,
            is_finished: false,
            is_claimed: false,
        }
    }

    pub fn fresh(round_index: u32, creator: Identity, now: i64) -> (r: RoundState)
        requires
            now + ROUND_DURATION <= i64::MAX,
        ensures
            r == RoundState::fresh_spec(round_index, creator, now),
    {
        RoundState {
            round_index,
            creator,
            joiner: Identity::unset(),
            is_creator_updated: false,
            is_joiner_updated: false,
            creator_score: 0,
            joiner_score: 0,
            start_time: now,
            join_time: 0,
            winner: Identity::unset(),
            timeout: now + ROUND_DURATION,
            is_finished: false,
            is_claimed: false,
        }
    }

    /// Whether the round is in a state that the instructions can reach.
    pub fn is_well_formed(&self) -> (r: bool)
        ensures
            r == self.wf(),
    {
        let expected_winner = if self.is_finished && self.is_creator_updated && self.is_joiner_updated {
            if self.creator_score > self.joiner_score {
                self.creator
            } else if self.creator_score < self.joiner_score {
                self.joiner
            } else {
                Identity::unset()
            }
        } else {
            Identity::unset()
        };
        self.creator.is_set()
            && self.start_time <= i64::MAX - ROUND_DURATION
            && self.timeout == self.start_time + ROUND_DURATION
            && (!self.is_joiner_updated || self.joiner.is_set())
            && (!self.is_finished || (self.is_creator_updated && self.is_joiner_updated) || !self.joiner.is_set())
            && self.winner == expected_winner
            && (!self.is_claimed || (self.is_finished && self.is_creator_updated && self.is_joiner_updated))
    }

    /// The lamports the vault holds on this round's account.
    pub fn escrow(&self) -> (r: u64)
        ensures
            r == self.escrow_spec(),
    {
        if self.is_claimed || (self.is_finished && !self.joiner.is_set()) {
            0
        } else if self.joiner.is_set() {
            2 * FEE
        } else {
            FEE
        }
    }
}

} // verus!
