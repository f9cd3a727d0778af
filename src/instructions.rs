use vstd::prelude::*;
use crate::error::BetGame;
use crate::identity::Identity;
use crate::registry::allocate_outcome;
use crate::state::{decide_winner, GlobalState, RoundState, Vault, Wallet, FEE, ROUND_DURATION};

verus! {

/// The accounts that setting up the game touches.
#[derive(Clone, Copy, Debug, PartialEq, Eq, Structural)]
pub struct Initialize {
    pub global_state: GlobalState,
    pub vault: Vault,
}

/// The accounts that creating a round touches; `user` is the creator.
#[derive(Clone, Copy, Debug, PartialEq, Eq, Structural)]
pub struct Create {
    pub user: Wallet,
    pub global_state: GlobalState,
    pub round_state: RoundState,
    pub vault: Vault,
}

/// The accounts that joining a round touches; `user` is the joiner.
#[derive(Clone, Copy, Debug, PartialEq, Eq, Structural)]
pub struct Join {
    pub user: Wallet,
    pub round_state: RoundState,
    pub vault: Vault,
}

/// The accounts of a creator's score submission; `user` is the caller.
#[derive(Clone, Copy, Debug, PartialEq, Eq, Structural)]
pub struct CreatorUpdateScore {
    pub user: Identity,
    pub round_state: RoundState,
}

/// The accounts of a joiner's score submission; `user` is the caller.
#[derive(Clone, Copy, Debug, PartialEq, Eq, Structural)]
pub struct JoinerUpdateScore {
    pub user: Identity,
    pub round_state: RoundState,
}

/// The accounts of a payout: the round, the vault and both parties.
#[derive(Clone, Copy, Debug, PartialEq, Eq, Structural)]
pub struct Claim {
    pub round_state: RoundState,
    pub vault: Vault,
    pub creator: Wallet,
    pub joiner: Wallet,
}

/// The accounts of a timeout refund; `user` is the creator.
#[derive(Clone, Copy, Debug, PartialEq, Eq, Structural)]
pub struct ClaimDeposit {
    pub user: Wallet,
    pub round_state: RoundState,
    pub vault: Vault,
}

pub open spec fn debit(w: Wallet, amount: u64) -> Wallet {
    Wallet { key: w.key, lamports: (w.lamports - amount) as u64 }
}

pub open spec fn credit(w: Wallet, amount: u64) -> Wallet {
    Wallet { key: w.key, lamports: (w.lamports + amount) as u64 }
}

pub open spec fn fits_credit(balance: u64, amount: u64) -> bool {
    balance + amount <= u64::MAX
}

/// Creating round `round_index` at time `now`: the index must be the
/// registry's next one; the creator pays one fee into the vault.
pub open spec fn create_outcome(c: Create, round_index: u32, now: i64) -> (Create, Result<(), BetGame>) {
    if round_index != c.global_state.total_round {
        (c, Err(BetGame::InvalidRoundIndex))
    } else if round_index == u32::MAX || now + ROUND_DURATION > i64::MAX {
        (c, Err(BetGame::ArithmeticOverflow))
    } else if c.user.lamports < FEE {
        (c, Err(BetGame::InsufficientFunds))
    } else if !fits_credit(c.vault.balance, FEE) {
        (c, Err(BetGame::ArithmeticOverflow))
    } else {
        (
            Create {
                user: debit(c.user, FEE),
                global_state: GlobalState { total_round: (round_index + 1) as u32 },
                round_state: RoundState::fresh_spec(round_index, c.user.key, now),
                vault: Vault { balance: (c.vault.balance + FEE) as u64 },
            },
            Ok(()),
        )
    }
}

/// Joining at time `now`: the slot must be free and the round still open;
/// the joiner pays one fee into the vault. Joining after the deadline is
/// allowed.
pub open spec fn join_outcome(c: Join, now: i64) -> (Join, Result<(), BetGame>) {
    if c.round_state.has_joiner() {
        (c, Err(BetGame::AlreadyJoined))
    } else if c.round_state.is_finished {
        (c, Err(BetGame::AlreadyFinished))
    } else if c.user.lamports < FEE {
        (c, Err(BetGame::InsufficientFunds))
    } else if !fits_credit(c.vault.balance, FEE) {
        (c, Err(BetGame::ArithmeticOverflow))
    } else {
        (
            Join {
                user: debit(c.user, FEE),
                round_state: RoundState { joiner: c.user.key, join_time: now, ..c.round_state },
                vault: Vault { balance: (c.vault.balance + FEE) as u64 },
            },
            Ok(()),
        )
    }
}

/// Closes the round once both sides have submitted, naming the winner.
pub open spec fn finalize_if_complete(r: RoundState) -> RoundState {
    if r.both_updated() {
        RoundState {
            is_finished: true,
            winner: decide_winner(r.creator, r.joiner, r.creator_score, r.joiner_score),
            ..r
        }
    } else {
        r
    }
}

/// The creator records `score`; a submission may be repeated until the round
/// is finished.
pub open spec fn creator_score_outcome(c: CreatorUpdateScore, score: u32, now: i64) -> (CreatorUpdateScore, Result<(), BetGame>) {
    if c.user != c.round_state.creator {
        (c, Err(BetGame::NotCreator))
    } else if c.round_state.is_finished {
        (c, Err(BetGame::AlreadyFinished))
    } else if now >= c.round_state.timeout {
        (c, Err(BetGame::OutOfTime))
    } else {
        (
            CreatorUpdateScore {
                user: c.user,
                round_state: finalize_if_complete(
                    RoundState { creator_score: score, is_creator_updated: true, ..c.round_state },
                ),
            },
            Ok(()),
        )
    }
}

/// The joiner records `score`, which also stamps the join time.
pub open spec fn joiner_score_outcome(c: JoinerUpdateScore, score: u32, now: i64) -> (JoinerUpdateScore, Result<(), BetGame>) {
    if c.user != c.round_state.joiner {
        (c, Err(BetGame::NotJoiner))
    } else if c.round_state.is_finished {
        (c, Err(BetGame::AlreadyFinished))
    } else if now >= c.round_state.timeout {
        (c, Err(BetGame::OutOfTime))
    } else {
        (
            JoinerUpdateScore {
                user: c.user,
                round_state: finalize_if_complete(
                    RoundState {
                        joiner_score: score,
                        is_joiner_updated: true,
                        join_time: now,
                        ..c.round_state
                    },
                ),
            },
            Ok(()),
        )
    }
}

/// Who receives what from the pot: the whole pot to the winner, or one fee
/// back to each side on equal scores.
pub open spec fn payout(r: RoundState) -> (u64, u64) {
    if r.creator_score == r.joiner_score {
        (FEE, FEE)
    } else if r.creator_score > r.joiner_score {
        ((2 * FEE) as u64, 0)
    } else {
        (0, (2 * FEE) as u64)
    }
}

/// Paying out a finished round, once; the vault is debited exactly what is
/// paid.
pub open spec fn claim_outcome(c: Claim) -> (Claim, Result<(), BetGame>) {
    let r = c.round_state;
    let (to_creator, to_joiner) = payout(r);
    if c.creator.key != r.creator {
        (c, Err(BetGame::WrongCreator))
    } else if c.joiner.key != r.joiner {
        (c, Err(BetGame::WrongJoiner))
    } else if !r.is_finished {
        (c, Err(BetGame::NotEndYet))
    } else if !r.both_updated() {
        (c, Err(BetGame::CreatorNotUpdated))
    } else if r.is_claimed {
        (c, Err(BetGame::AlreadyClaimed))
    } else if c.vault.balance < 2 * FEE {
        (c, Err(BetGame::InsufficientFunds))
    } else if !fits_credit(c.creator.lamports, to_creator) || !fits_credit(c.joiner.lamports, to_joiner) {
        (c, Err(BetGame::ArithmeticOverflow))
    } else {
        (
            Claim {
                round_state: RoundState { is_claimed: true, ..r },
                vault: Vault { balance: (c.vault.balance - 2 * FEE) as u64 },
                creator: credit(c.creator, to_creator),
                joiner: credit(c.joiner, to_joiner),
            },
            Ok(()),
        )
    }
}

/// Refunding the creator of a round that no one joined, after its deadline.
pub open spec fn claim_deposit_outcome(c: ClaimDeposit, now: i64) -> (ClaimDeposit, Result<(), BetGame>) {
    let r = c.round_state;
    if c.user.key != r.creator {
        (c, Err(BetGame::NotCreator))
    } else if now <= r.timeout {
        (c, Err(BetGame::NotOutOfTime))
    } else if r.has_joiner() {
        (c, Err(BetGame::NoJoiner))
    } else if r.is_finished {
        (c, Err(BetGame::AlreadyFinished))
    } else if c.vault.balance < FEE {
        (c, Err(BetGame::InsufficientFunds))
    } else if !fits_credit(c.user.lamports, FEE) {
        (c, Err(BetGame::ArithmeticOverflow))
    } else {
        (
            ClaimDeposit {
                user: credit(c.user, FEE),
                round_state: RoundState { is_finished: true, ..r },
                vault: Vault { balance: (c.vault.balance - FEE) as u64 },
            },
            Ok(()),
        )
    }
}

/// Sets up the game: the registry starts with no rounds.
pub fn initialize(ctx: &mut Initialize) -> (r: Result<(), BetGame>)
    ensures
        r is Ok,
        final(ctx).global_state.total_round == 0,
        final(ctx).vault == old(ctx).vault,
{
    ctx.global_state = GlobalState::new();
    Ok(())
}

/// Creates round `round_index` at time `now`, charging the creator one fee.
pub fn create_round(ctx: &mut Create, round_index: u32, now: i64) -> (r: Result<(), BetGame>)
    requires
        old(ctx).user.key.is_set_spec(),
    ensures
        (*final(ctx), r) == create_outcome(*old(ctx), round_index, now),
        r is Ok ==> final(ctx).round_state.wf(),
{
    if round_index != ctx.global_state.total_round {
        return Err(BetGame::InvalidRoundIndex);
    }
    if ctx.global_state.total_round == u32::MAX || now > i64::MAX - ROUND_DURATION {
        return Err(BetGame::ArithmeticOverflow);
    }
    if ctx.user.lamports < FEE {
        return Err(BetGame::InsufficientFunds);
    }
    if ctx.vault.balance > u64::MAX - FEE {
        return Err(BetGame::ArithmeticOverflow);
    }
    let index = match ctx.global_state.allocate_round_index(round_index) {
        Ok(index) => index,
        Err(e) => return Err(e),
    };
    ctx.round_state = RoundState::fresh(index, ctx.user.key, now);
    ctx.user.lamports = ctx.user.lamports - FEE;
    ctx.vault.balance = ctx.vault.balance + FEE;
    Ok(())
}

/// Joins a round as its second player, charging one fee.
pub fn join_round(ctx: &mut Join, round_index: u32, now: i64) -> (r: Result<(), BetGame>)
    requires
        old(ctx).user.key.is_set_spec(),
        old(ctx).round_state.wf(),
        old(ctx).round_state.round_index == round_index,
    ensures
        (*final(ctx), r) == join_outcome(*old(ctx), now),
        final(ctx).round_state.wf(),
{
    if ctx.round_state.joiner.is_set() {
        return Err(BetGame::AlreadyJoined);
    }
    if ctx.round_state.is_finished {
        return Err(BetGame::AlreadyFinished);
    }
    if ctx.user.lamports < FEE {
        return Err(BetGame::InsufficientFunds);
    }
    if ctx.vault.balance > u64::MAX - FEE {
        return Err(BetGame::ArithmeticOverflow);
    }
    ctx.round_state.joiner = ctx.user.key;
    ctx.round_state.join_time = now;
    ctx.user.lamports = ctx.user.lamports - FEE;
    ctx.vault.balance = ctx.vault.balance + FEE;
    Ok(())
}

/// The winner of a round whose scores are final.
pub fn determine_winner(creator: Identity, joiner: Identity, creator_score: u32, joiner_score: u32) -> (r: Identity)
    ensures
        r == decide_winner(creator, joiner, creator_score, joiner_score),
{
    if creator_score > joiner_score {
        creator
    } else if creator_score < joiner_score {
        joiner
    } else {
        Identity::unset()
    }
}

/// Closes `round` if both sides have now submitted.
fn finalize_round(round: &mut RoundState)
    ensures
        *final(round) == finalize_if_complete(*old(round)),
{
    if round.is_creator_updated && round.is_joiner_updated {
        round.is_finished = true;
        round.winner = determine_winner(round.creator, round.joiner, round.creator_score, round.joiner_score);
    }
}

/// Records the creator's score, before the deadline and while the round is
/// open.
pub fn creator_update_score(ctx: &mut CreatorUpdateScore, round_index: u32, score: u32, now: i64) -> (r: Result<(), BetGame>)
    requires
        old(ctx).user.is_set_spec(),
        old(ctx).round_state.wf(),
        old(ctx).round_state.round_index == round_index,
    ensures
        (*final(ctx), r) == creator_score_outcome(*old(ctx), score, now),
        final(ctx).round_state.wf(),
{
    if ctx.user != ctx.round_state.creator {
        return Err(BetGame::NotCreator);
    }
    if ctx.round_state.is_finished {
        return Err(BetGame::AlreadyFinished);
    }
    if now >= ctx.round_state.timeout {
        return Err(BetGame::OutOfTime);
    }
    ctx.round_state.creator_score = score;
    ctx.round_state.is_creator_updated = true;
    finalize_round(&mut ctx.round_state);
    Ok(())
}

/// Records the joiner's score, before the deadline and while the round is
/// open.
pub fn joiner_update_score(ctx: &mut JoinerUpdateScore, round_index: u32, score: u32, now: i64) -> (r: Result<(), BetGame>)
    requires
        old(ctx).user.is_set_spec(),
        old(ctx).round_state.wf(),
        old(ctx).round_state.round_index == round_index,
    ensures
        (*final(ctx), r) == joiner_score_outcome(*old(ctx), score, now),
        final(ctx).round_state.wf(),
{
    if ctx.user != ctx.round_state.joiner {
        return Err(BetGame::NotJoiner);
    }
    if ctx.round_state.is_finished {
        return Err(BetGame::AlreadyFinished);
    }
    if now >= ctx.round_state.timeout {
        return Err(BetGame::OutOfTime);
    }
    ctx.round_state.joiner_score = score;
    ctx.round_state.is_joiner_updated = true;
    ctx.round_state.join_time = now;
    finalize_round(&mut ctx.round_state);
    Ok(())
}

/// Pays out a finished round to the parties named in `ctx`.
pub fn claim(ctx: &mut Claim, round_index: u32) -> (r: Result<(), BetGame>)
    requires
        old(ctx).round_state.wf(),
        old(ctx).round_state.round_index == round_index,
    ensures
        (*final(ctx), r) == claim_outcome(*old(ctx)),
        final(ctx).round_state.wf(),
{
    let round = ctx.round_state;
    if ctx.creator.key != round.creator {
        return Err(BetGame::WrongCreator);
    }
    if ctx.joiner.key != round.joiner {
        return Err(BetGame::WrongJoiner);
    }
    if !round.is_finished {
        return Err(BetGame::NotEndYet);
    }
    if !round.is_creator_updated || !round.is_joiner_updated {
        return Err(BetGame::CreatorNotUpdated);
    }
    if round.is_claimed {
        return Err(BetGame::AlreadyClaimed);
    }
    if ctx.vault.balance < 2 * FEE {
        return Err(BetGame::InsufficientFunds);
    }
    let (to_creator, to_joiner) = if round.creator_score == round.joiner_score {
        (FEE, FEE)
    } else if round.creator_score > round.joiner_score {
        (2 * FEE, 0)
    } else {
        (0, 2 * FEE)
    };
    if ctx.creator.lamports > u64::MAX - to_creator || ctx.joiner.lamports > u64::MAX - to_joiner {
        return Err(BetGame::ArithmeticOverflow);
    }
    ctx.vault.balance = ctx.vault.balance - 2 * FEE;
    ctx.creator.lamports = ctx.creator.lamports + to_creator;
    ctx.joiner.lamports = ctx.joiner.lamports + to_joiner;
    ctx.round_state.is_claimed = true;
    Ok(())
}

/// Refunds the creator's fee when the deadline has passed and no one joined.
pub fn claim_deposit(ctx: &mut ClaimDeposit, round_index: u32, now: i64) -> (r: Result<(), BetGame>)
    requires
        old(ctx).round_state.wf(),
        old(ctx).round_state.round_index == round_index,
    ensures
        (*final(ctx), r) == claim_deposit_outcome(*old(ctx), now),
        final(ctx).round_state.wf(),
{
    if ctx.user.key != ctx.round_state.creator {
        return Err(BetGame::NotCreator);
    }
    if now <= ctx.round_state.timeout {
        return Err(BetGame::NotOutOfTime);
    }
    if ctx.round_state.joiner.is_set() {
        return Err(BetGame::NoJoiner);
    }
    if ctx.round_state.is_finished {
        return Err(BetGame::AlreadyFinished);
    }
    if ctx.vault.balance < FEE {
        return Err(BetGame::InsufficientFunds);
    }
    if ctx.user.lamports > u64::MAX - FEE {
        return Err(BetGame::ArithmeticOverflow);
    }
    ctx.vault.balance = ctx.vault.balance - FEE;
    ctx.user.lamports = ctx.user.lamports + FEE;
    ctx.round_state.is_finished = true;
    Ok(())
}

} // verus!
