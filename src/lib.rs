//! Two-player stake game: each party escrows a fixed fee, each submits one
//! score, and the higher score takes the pot (a draw refunds both).
//!
//! The round life cycle and its escrow accounting are verified here; reading
//! the clock, moving lamports between ledger accounts and account storage are
//! left to the host program, which hands this library plain values.

pub mod error;
pub mod identity;
pub mod instructions;
pub mod laws;
pub mod registry;
pub mod state;

pub use crate::error::BetGame;
pub use crate::identity::Identity;
pub use crate::state::{
    GlobalState, RoundState, UserRoundList, Vault, Wallet, FEE, ROUND_DURATION,
};
pub use crate::instructions::{
    claim, claim_deposit, create_round, creator_update_score, initialize, join_round,
    joiner_update_score, determine_winner, Claim, ClaimDeposit, Create, CreatorUpdateScore, Initialize, Join,
    JoinerUpdateScore,
};
