use vstd::prelude::*;
use crate::error::BetGame;
use crate::identity::Identity;
use crate::instructions::{
    claim_deposit_outcome, claim_outcome, create_outcome, creator_score_outcome, join_outcome,
    joiner_score_outcome, Claim, ClaimDeposit, Create, CreatorUpdateScore, Join, JoinerUpdateScore,
};
use crate::state::RoundState;

verus! {

/// Creation `c` asked for index `n` and took it: the new round has index `n`
/// and the registry then counts `n + 1` rounds.
pub open spec fn created_as_nth(c: Create, idx: u32, time: i64, n: int) -> bool {
    let after = create_outcome(c, idx, time).0;
    &&& idx == n
    &&& after.round_state.round_index == n
    &&& after.global_state.total_round == n + 1
}

/// Starting from an empty registry, the k-th of a chain of successful
/// creations (counting from zero) receives index k and leaves the counter at
/// k + 1: after N creations the registry counts N rounds and the last one has
/// index N - 1.
pub proof fn lemma_creations_are_counted(cs: Seq<Create>, idxs: Seq<u32>, times: Seq<i64>)
    requires
        cs.len() == idxs.len(),
        cs.len() == times.len(),
        cs.len() > 0 ==> cs[0].global_state.total_round == 0,
        forall|i: int| 0 <= i < cs.len() ==> (#[trigger] create_outcome(cs[i], idxs[i], times[i])).1 is Ok,
        forall|i: int| 0 <= i < cs.len() - 1 ==> cs[i + 1].global_state
            == (#[trigger] create_outcome(cs[i], idxs[i], times[i])).0.global_state,
    ensures
        forall|i: int| 0 <= i < cs.len() ==> #[trigger] created_as_nth(cs[i], idxs[i], times[i], i),
{
    lemma_counter_tracks_creations(cs, idxs, times, cs.len() as int);
}

proof fn lemma_counter_tracks_creations(cs: Seq<Create>, idxs: Seq<u32>, times: Seq<i64>, k: int)
    requires
        0 <= k <= cs.len(),
        cs.len() == idxs.len(),
        cs.len() == times.len(),
        cs.len() > 0 ==> cs[0].global_state.total_round == 0,
        forall|i: int| 0 <= i < cs.len() ==> (#[trigger] create_outcome(cs[i], idxs[i], times[i])).1 is Ok,
        forall|i: int| 0 <= i < cs.len() - 1 ==> cs[i + 1].global_state
            == (#[trigger] create_outcome(cs[i], idxs[i], times[i])).0.global_state,
    ensures
        forall|i: int| 0 <= i < k ==> #[trigger] created_as_nth(cs[i], idxs[i], times[i], i),
        k < cs.len() ==> cs[k].global_state.total_round == k,
    decreases k,
{
    if k > 0 {
        lemma_counter_tracks_creations(cs, idxs, times, k - 1);
        let prev = create_outcome(cs[k - 1], idxs[k - 1], times[k - 1]);
        if k < cs.len() {
            assert(cs[k].global_state == prev.0.global_state);
        }
        assert(created_as_nth(cs[k - 1], idxs[k - 1], times[k - 1], k - 1));
    }
}

/// A round is joined at most once: after a successful join, joining the
/// resulting round again fails with `AlreadyJoined`.
pub proof fn lemma_join_only_once(first: Join, now: i64, second: Join, later: i64)
    requires
        first.user.key.is_set_spec(),
        first.round_state.wf(),
        join_outcome(first, now).1 is Ok,
        second.round_state == join_outcome(first, now).0.round_state,
    ensures
        join_outcome(second, later).1 == Err::<(), BetGame>(BetGame::AlreadyJoined),
{
}

/// In a finished round whose two scores are in, the winner is decided by the
/// scores alone: the strictly greater score wins, equal scores leave the
/// winner unset.
pub proof fn lemma_winner_of_final_scores(r: RoundState)
    requires
        r.wf(),
        r.is_finished,
        r.both_updated(),
    ensures
        r.creator_score > r.joiner_score ==> r.winner == r.creator,
        r.creator_score < r.joiner_score ==> r.winner == r.joiner,
        r.creator_score == r.joiner_score ==> r.winner == Identity::unset_spec(),
{
}

/// Finalization does not depend on who submits second: creator score `a` then
/// joiner score `b` ends in the same scores, winner and status as the
/// opposite order.
pub proof fn lemma_finalization_order_independent(
    r: RoundState,
    creator: Identity,
    joiner: Identity,
    a: u32,
    b: u32,
    t1: i64,
    t2: i64,
)
    requires
        r.wf(),
        creator_score_outcome(CreatorUpdateScore { user: creator, round_state: r }, a, t1).1 is Ok,
        joiner_score_outcome(JoinerUpdateScore { user: joiner, round_state: r }, b, t1).1 is Ok,
        t2 < r.timeout,
        !r.is_creator_updated,
        !r.is_joiner_updated,
    ensures
        ({
            let c_first = creator_score_outcome(CreatorUpdateScore { user: creator, round_state: r }, a, t1).0.round_state;
            let then_j = joiner_score_outcome(JoinerUpdateScore { user: joiner, round_state: c_first }, b, t2);
            let j_first = joiner_score_outcome(JoinerUpdateScore { user: joiner, round_state: r }, b, t1).0.round_state;
            let then_c = creator_score_outcome(CreatorUpdateScore { user: creator, round_state: j_first }, a, t2);
            &&& then_j.1 is Ok
            &&& then_c.1 is Ok
            &&& then_j.0.round_state.is_finished
            &&& then_c.0.round_state.is_finished
            &&& then_j.0.round_state.creator_score == then_c.0.round_state.creator_score
            &&& then_j.0.round_state.joiner_score == then_c.0.round_state.joiner_score
            &&& then_j.0.round_state.winner == then_c.0.round_state.winner
        }),
{
}

/// A round pays out at most once: after a successful claim, every claim on the
/// resulting round fails, with `AlreadyClaimed` when it names the same parties.
pub proof fn lemma_claim_at_most_once(first: Claim, second: Claim)
    requires
        first.round_state.wf(),
        claim_outcome(first).1 is Ok,
        second.round_state == claim_outcome(first).0.round_state,
    ensures
        claim_outcome(second).1 is Err,
        second.creator.key == first.creator.key && second.joiner.key == first.joiner.key
            ==> claim_outcome(second).1 == Err::<(), BetGame>(BetGame::AlreadyClaimed),
{
}

/// A refund succeeds only past the deadline of a round that no one joined; it
/// finishes the round, so a later join fails with `AlreadyFinished`.
pub proof fn lemma_refund_closes_round(c: ClaimDeposit, now: i64, late: Join, later: i64)
    requires
        c.round_state.wf(),
        claim_deposit_outcome(c, now).1 is Ok,
        late.round_state == claim_deposit_outcome(c, now).0.round_state,
    ensures
        now > c.round_state.timeout,
        !c.round_state.has_joiner(),
        claim_deposit_outcome(c, now).0.round_state.is_finished,
        join_outcome(late, later).1 == Err::<(), BetGame>(BetGame::AlreadyFinished),
{
}

/// Once the deadline is reached, a score submission by the rightful party to
/// an unfinished round fails with `OutOfTime`.
pub proof fn lemma_no_score_after_timeout(
    c: CreatorUpdateScore,
    j: JoinerUpdateScore,
    score: u32,
    now: i64,
)
    requires
        c.user == c.round_state.creator,
        !c.round_state.is_finished,
        now >= c.round_state.timeout,
        j.user == j.round_state.joiner,
        !j.round_state.is_finished,
        now >= j.round_state.timeout,
    ensures
        creator_score_outcome(c, score, now).1 == Err::<(), BetGame>(BetGame::OutOfTime),
        joiner_score_outcome(j, score, now).1 == Err::<(), BetGame>(BetGame::OutOfTime),
{
}


/// Escrow accounting: every instruction that moves lamports changes the vault
/// by exactly the change in its round's escrow (a new round starts from an
/// empty one), and leaves the lamports of the accounts it touches adding up to
/// the same total.
pub proof fn lemma_vault_follows_escrow(
    c: Create,
    round_index: u32,
    t_create: i64,
    j: Join,
    t_join: i64,
    cl: Claim,
    d: ClaimDeposit,
    t_refund: i64,
)
    requires
        c.user.key.is_set_spec(),
        j.user.key.is_set_spec(),
        j.round_state.wf(),
        cl.round_state.wf(),
        d.round_state.wf(),
    ensures
        ({
            let (after, r) = create_outcome(c, round_index, t_create);
            r is Ok ==> {
                &&& after.vault.balance == c.vault.balance + after.round_state.escrow_spec()
                &&& after.vault.balance + after.user.lamports == c.vault.balance + c.user.lamports
            }
        }),
        ({
            let (after, r) = join_outcome(j, t_join);
            r is Ok ==> {
                &&& after.vault.balance + j.round_state.escrow_spec() == j.vault.balance
                    + after.round_state.escrow_spec()
                &&& after.vault.balance + after.user.lamports == j.vault.balance + j.user.lamports
            }
        }),
        ({
            let (after, r) = claim_outcome(cl);
            r is Ok ==> {
                &&& after.vault.balance + cl.round_state.escrow_spec() == cl.vault.balance
                    + after.round_state.escrow_spec()
                &&& after.round_state.escrow_spec() == 0
                &&& after.vault.balance + after.creator.lamports + after.joiner.lamports
                    == cl.vault.balance + cl.creator.lamports + cl.joiner.lamports
            }
        }),
        ({
            let (after, r) = claim_deposit_outcome(d, t_refund);
            r is Ok ==> {
                &&& after.vault.balance + d.round_state.escrow_spec() == d.vault.balance
                    + after.round_state.escrow_spec()
                &&& after.round_state.escrow_spec() == 0
                &&& after.vault.balance + after.user.lamports == d.vault.balance + d.user.lamports
            }
        }),
{
}

} // verus!
