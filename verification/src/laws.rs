use vstd::prelude::*;

use crate::engine::GovernanceEngine;
use crate::errors::DaoError;
use crate::state::{status_le, VoteType};

verus! {

/// A proposal's end time is its start time plus its DAO's voting window, from
/// creation on: the engine's invariant carries the equation through every
/// operation, so it holds whenever the invariant does.
pub proof fn lemma_end_time_fixed(e: GovernanceEngine, pid: int)
    requires
        e.wf(),
        0 <= pid < e.proposals@.len(),
    ensures
        e.proposals@[pid].end_time == e.proposals@[pid].start_time + e.daos@[e.proposals@[pid].dao as int].config.max_voting_time,
{
    assert(GovernanceEngine::proposal_ok(e.proposals@[pid], e.daos@));
}

/// An accepted vote was cast strictly before the end time on an `Active`
/// proposal, and it increases exactly the chosen tally by exactly the
/// vote's weight: the other tally, the voting window and every other
/// proposal keep their values.
pub proof fn lemma_vote_adds_exactly_weight(
    pre: GovernanceEngine,
    post: GovernanceEngine,
    pid: usize,
    voter: u64,
    choice: VoteType,
    weight: u64,
    now: i64,
)
    requires
        (pid as int) < pre.proposals@.len(),
        GovernanceEngine::cast_vote_post(pre, post, pid, voter, choice, weight, now, Ok(())),
    ensures
        now < pre.proposals@[pid as int].end_time,
        pre.proposals@[pid as int].status is Active,
        choice is For ==> post.proposals@[pid as int].for_votes == pre.proposals@[pid as int].for_votes + weight
            && post.proposals@[pid as int].against_votes == pre.proposals@[pid as int].against_votes,
        choice is Against ==> post.proposals@[pid as int].against_votes == pre.proposals@[pid as int].against_votes + weight
            && post.proposals@[pid as int].for_votes == pre.proposals@[pid as int].for_votes,
        post.proposals@[pid as int].start_time == pre.proposals@[pid as int].start_time,
        post.proposals@[pid as int].end_time == pre.proposals@[pid as int].end_time,
        forall|i: int|
            0 <= i < pre.proposals@.len() && i != pid ==> post.proposals@[i] == pre.proposals@[i],
{
}

/// A second vote by the same voter on the same proposal is rejected with the
/// duplicate-vote error and changes nothing, whatever the choices and
/// weights of the two votes — provided the proposal is still open to votes
/// at the second attempt, since the window, status and weight checks come
/// first.
pub proof fn lemma_second_vote_fails(
    pre: GovernanceEngine,
    mid: GovernanceEngine,
    post: GovernanceEngine,
    pid: usize,
    voter: u64,
    first_choice: VoteType,
    first_weight: u64,
    first_now: i64,
    second_choice: VoteType,
    second_weight: u64,
    second_now: i64,
    r2: Result<(), DaoError>,
)
    requires
        (pid as int) < pre.proposals@.len(),
        GovernanceEngine::cast_vote_post(pre, mid, pid, voter, first_choice, first_weight, first_now, Ok(())),
        GovernanceEngine::cast_vote_post(mid, post, pid, voter, second_choice, second_weight, second_now, r2),
        second_now < mid.proposals@[pid as int].end_time,
        mid.proposals@[pid as int].status is Active,
        second_weight > 0,
    ensures
        r2 == Err::<(), DaoError>(DaoError::AlreadyVoted),
        GovernanceEngine::state_eq(mid, post),
{
    let n = pre.votes@.len() as int;
    assert(mid.votes@[n].proposal == pid && mid.votes@[n].voter == voter);
    assert(mid.votes.has_vote(pid as int, voter));
}

/// A vote whose accumulation would exceed the maximum representable tally is
/// rejected with an arithmetic error and leaves all records unchanged: the
/// chosen side overflowing its tally is the tally-overflow error, the grand
/// total overflowing during threshold evaluation the wide-math one.
pub proof fn lemma_overflow_rejected(
    pre: GovernanceEngine,
    post: GovernanceEngine,
    pid: usize,
    voter: u64,
    choice: VoteType,
    weight: u64,
    now: i64,
    r: Result<(), DaoError>,
)
    requires
        (pid as int) < pre.proposals@.len(),
        GovernanceEngine::cast_vote_post(pre, post, pid, voter, choice, weight, now, r),
        now < pre.proposals@[pid as int].end_time,
        pre.proposals@[pid as int].status is Active,
        weight > 0,
        !pre.votes.has_vote(pid as int, voter),
        pre.proposals@[pid as int].for_votes + pre.proposals@[pid as int].against_votes + weight
            > u64::MAX,
    ensures
        GovernanceEngine::vote_tally_overflows(pre.proposals@[pid as int], choice, weight) ==> r
            == Err::<(), DaoError>(DaoError::VoteOverflow),
        !GovernanceEngine::vote_tally_overflows(pre.proposals@[pid as int], choice, weight) ==> r
            == Err::<(), DaoError>(DaoError::MathOverflow),
        GovernanceEngine::state_eq(pre, post),
{
}

/// Execution before the hold-up delay has elapsed fails with the hold-up
/// error and changes nothing, even when the proposal has already succeeded.
pub proof fn lemma_holdup_enforced(
    pre: GovernanceEngine,
    post: GovernanceEngine,
    pid: usize,
    now: i64,
    r: Result<(), DaoError>,
)
    requires
        (pid as int) < pre.proposals@.len(),
        GovernanceEngine::execute_post(pre, post, pid, now, r),
        !pre.proposals@[pid as int].executed,
        pre.proposals@[pid as int].status is Succeeded,
        now < pre.proposals@[pid as int].end_time + pre.daos@[pre.proposals@[pid as int].dao as int].config.hold_up_time,
    ensures
        r == Err::<(), DaoError>(DaoError::HoldUpTimeNotPassed),
        GovernanceEngine::state_eq(pre, post),
{
}

/// Execution of a proposal that is not in the `Succeeded` status fails with
/// the not-succeeded error and changes nothing.
pub proof fn lemma_not_succeeded_rejected(
    pre: GovernanceEngine,
    post: GovernanceEngine,
    pid: usize,
    now: i64,
    r: Result<(), DaoError>,
)
    requires
        (pid as int) < pre.proposals@.len(),
        GovernanceEngine::execute_post(pre, post, pid, now, r),
        !pre.proposals@[pid as int].executed,
        !(pre.proposals@[pid as int].status is Succeeded),
    ensures
        r == Err::<(), DaoError>(DaoError::ProposalNotSucceeded),
        GovernanceEngine::state_eq(pre, post),
{
}

/// Execution succeeds at most once: the first success leaves the proposal
/// `Executed`, and any later attempt fails with the already-executed error
/// and changes nothing, whatever time it arrives at.
pub proof fn lemma_execute_only_once(
    pre: GovernanceEngine,
    mid: GovernanceEngine,
    post: GovernanceEngine,
    pid: usize,
    first_now: i64,
    second_now: i64,
    r2: Result<(), DaoError>,
)
    requires
        (pid as int) < pre.proposals@.len(),
        GovernanceEngine::execute_post(pre, mid, pid, first_now, Ok(())),
        GovernanceEngine::execute_post(mid, post, pid, second_now, r2),
    ensures
        mid.proposals@[pid as int].status is Executed,
        mid.proposals@[pid as int].executed,
        r2 == Err::<(), DaoError>(DaoError::ProposalAlreadyExecuted),
        GovernanceEngine::state_eq(mid, post),
{
}

/// Casting a vote moves every proposal's status only forward along
/// `Active -> Succeeded | Defeated -> Executed`, never shrinks a tally and
/// never clears an executed flag — whether the vote was accepted or not.
pub proof fn lemma_vote_monotone(
    pre: GovernanceEngine,
    post: GovernanceEngine,
    pid: usize,
    voter: u64,
    choice: VoteType,
    weight: u64,
    now: i64,
    r: Result<(), DaoError>,
)
    requires
        (pid as int) < pre.proposals@.len(),
        GovernanceEngine::cast_vote_post(pre, post, pid, voter, choice, weight, now, r),
    ensures
        forall|i: int|
            0 <= i < pre.proposals@.len() ==> status_le(
                (#[trigger] pre.proposals@[i]).status,
                post.proposals@[i].status,
            ),
        forall|i: int|
            0 <= i < pre.proposals@.len() ==> (#[trigger] pre.proposals@[i]).for_votes
                <= post.proposals@[i].for_votes && pre.proposals@[i].against_votes
                <= post.proposals@[i].against_votes,
        forall|i: int|
            0 <= i < pre.proposals@.len() && (#[trigger] pre.proposals@[i]).executed
                ==> post.proposals@[i].executed,
{
}

/// Executing a proposal moves statuses only forward as well: the executed
/// proposal goes from `Succeeded` to `Executed`, every other record keeps
/// its value, and tallies never change.
pub proof fn lemma_execute_monotone(
    pre: GovernanceEngine,
    post: GovernanceEngine,
    pid: usize,
    now: i64,
    r: Result<(), DaoError>,
)
    requires
        (pid as int) < pre.proposals@.len(),
        GovernanceEngine::execute_post(pre, post, pid, now, r),
    ensures
        forall|i: int|
            0 <= i < pre.proposals@.len() ==> status_le(
                (#[trigger] pre.proposals@[i]).status,
                post.proposals@[i].status,
            ),
        forall|i: int|
            0 <= i < pre.proposals@.len() ==> (#[trigger] pre.proposals@[i]).for_votes
                == post.proposals@[i].for_votes && pre.proposals@[i].against_votes
                == post.proposals@[i].against_votes,
{
}

} // verus!
