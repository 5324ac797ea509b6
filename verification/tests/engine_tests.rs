use custom_dao::config::DaoConfig;
use custom_dao::engine::GovernanceEngine;
use custom_dao::errors::DaoError;
use custom_dao::state::{ProposalStatus, ThresholdBasis, VoteType};

const WEEK: i64 = 604800;
const DAY: i64 = 86400;

/// An engine with one DAO: threshold 50%, one-week window, one-day hold-up,
/// total supply 1000, threshold measured against total supply.
fn quorum_engine() -> GovernanceEngine {
    let mut e = GovernanceEngine::new();
    let r = e.create_dao(
        1,
        String::from("quorum dao"),
        2,
        1000,
        ThresholdBasis::TotalSupply,
        DaoConfig { voting_threshold: 50, max_voting_time: WEEK, hold_up_time: DAY },
    );
    assert_eq!(r, Ok(0));
    e
}

#[test]
fn proposal_window_fixed_at_creation() {
    let mut e = quorum_engine();
    let t0: i64 = 1_700_000_000;
    let pid = e.create_proposal(0, 7, String::from("paint it blue"), t0);
    assert_eq!(pid, 0);
    let p = e.get_proposal(0);
    assert_eq!(p.start_time, t0);
    assert_eq!(p.end_time, t0 + WEEK);
    assert_eq!(p.for_votes, 0);
    assert_eq!(p.against_votes, 0);
    assert_eq!(p.status, ProposalStatus::Active);
    assert!(!p.executed);
    assert_eq!(p.dao, 0);
    assert_eq!(p.seq, 0);
    assert_eq!(e.get_dao(0).proposal_count, 1);
}

#[test]
fn proposal_sequence_numbers_advance() {
    let mut e = quorum_engine();
    let a = e.create_proposal(0, 7, String::from("one"), 0);
    let b = e.create_proposal(0, 8, String::from("two"), 5);
    assert_eq!(a, 0);
    assert_eq!(b, 1);
    assert_eq!(e.get_proposal(0).seq, 0);
    assert_eq!(e.get_proposal(1).seq, 1);
    assert_eq!(e.get_dao(0).proposal_count, 2);
    assert_eq!(e.proposal_count(), 2);
}

#[test]
fn proposals_found_by_derived_address() {
    let mut e = quorum_engine();
    let a = e.create_proposal(0, 7, String::from("one"), 0);
    let b = e.create_proposal(0, 8, String::from("two"), 5);
    assert_eq!(e.find_proposal(0, 0), Some(a));
    assert_eq!(e.find_proposal(0, 1), Some(b));
    assert_eq!(e.find_proposal(0, 2), None);
    assert_eq!(e.find_proposal(1, 0), None);
}

#[test]
fn vote_adds_exactly_the_weight() {
    let mut e = quorum_engine();
    let pid = e.create_proposal(0, 7, String::from("p"), 0);
    assert_eq!(e.cast_vote(pid, 11, VoteType::Against, 300, 10), Ok(()));
    {
        let p = e.get_proposal(pid);
        assert_eq!(p.for_votes, 0);
        assert_eq!(p.against_votes, 300);
        assert_eq!(p.status, ProposalStatus::Active); // 300 < 500
    }
    assert_eq!(e.cast_vote(pid, 12, VoteType::For, 150, 20), Ok(()));
    {
        let p = e.get_proposal(pid);
        assert_eq!(p.for_votes, 150);
        assert_eq!(p.against_votes, 300);
        assert_eq!(p.end_time, WEEK);
    }
    assert!(e.has_voted(pid, 11));
    assert!(e.has_voted(pid, 12));
    assert!(!e.has_voted(pid, 13));
}

#[test]
fn duplicate_vote_rejected() {
    let mut e = quorum_engine();
    let pid = e.create_proposal(0, 7, String::from("p"), 0);
    assert_eq!(e.cast_vote(pid, 11, VoteType::For, 100, 10), Ok(()));
    // Same voter again, other side and other weight: still the duplicate.
    assert_eq!(e.cast_vote(pid, 11, VoteType::Against, 7, 20), Err(DaoError::AlreadyVoted));
    let p = e.get_proposal(pid);
    assert_eq!(p.for_votes, 100);
    assert_eq!(p.against_votes, 0);
}

#[test]
fn duplicate_vote_is_per_proposal() {
    let mut e = quorum_engine();
    let a = e.create_proposal(0, 7, String::from("a"), 0);
    let b = e.create_proposal(0, 7, String::from("b"), 0);
    assert_eq!(e.cast_vote(a, 11, VoteType::For, 100, 10), Ok(()));
    // The same voter may vote on a different proposal.
    assert_eq!(e.cast_vote(b, 11, VoteType::For, 100, 10), Ok(()));
    assert_eq!(e.cast_vote(a, 11, VoteType::For, 100, 20), Err(DaoError::AlreadyVoted));
}

#[test]
fn vote_at_or_after_end_time_rejected() {
    let mut e = quorum_engine();
    let pid = e.create_proposal(0, 7, String::from("p"), 0);
    assert_eq!(e.cast_vote(pid, 11, VoteType::For, 100, WEEK), Err(DaoError::VotingEnded));
    assert_eq!(e.cast_vote(pid, 11, VoteType::For, 100, WEEK + 1), Err(DaoError::VotingEnded));
    // One second earlier is still inside the window.
    assert_eq!(e.cast_vote(pid, 11, VoteType::For, 100, WEEK - 1), Ok(()));
}

#[test]
fn zero_weight_vote_rejected() {
    let mut e = quorum_engine();
    let pid = e.create_proposal(0, 7, String::from("p"), 0);
    assert_eq!(e.cast_vote(pid, 11, VoteType::For, 0, 10), Err(DaoError::InsufficientTokens));
    assert_eq!(e.get_proposal(pid).for_votes, 0);
}

#[test]
fn vote_on_decided_proposal_rejected() {
    let mut e = quorum_engine();
    let pid = e.create_proposal(0, 7, String::from("p"), 0);
    assert_eq!(e.cast_vote(pid, 11, VoteType::For, 600, 10), Ok(()));
    // 600 of 1000 passes the 50% threshold eagerly: the proposal is decided.
    assert_eq!(e.get_proposal(pid).status, ProposalStatus::Succeeded);
    assert_eq!(e.cast_vote(pid, 12, VoteType::Against, 100, 20), Err(DaoError::ProposalNotActive));
}

#[test]
fn tally_overflow_rejected_and_tallies_unchanged() {
    let mut e = GovernanceEngine::new();
    // Threshold 100% of a maximal supply: no realistic tally decides it.
    let r = e.create_dao(
        1,
        String::from("huge"),
        2,
        u64::MAX,
        ThresholdBasis::TotalSupply,
        DaoConfig { voting_threshold: 100, max_voting_time: WEEK, hold_up_time: DAY },
    );
    assert_eq!(r, Ok(0));
    let pid = e.create_proposal(0, 7, String::from("p"), 0);
    assert_eq!(e.cast_vote(pid, 11, VoteType::For, u64::MAX - 10, 10), Ok(()));
    assert_eq!(e.get_proposal(pid).status, ProposalStatus::Active);
    // The chosen side's tally would overflow.
    assert_eq!(e.cast_vote(pid, 12, VoteType::For, 11, 20), Err(DaoError::VoteOverflow));
    // The other side's tally fits, but the grand total would overflow.
    assert_eq!(e.cast_vote(pid, 13, VoteType::Against, 11, 30), Err(DaoError::MathOverflow));
    let p = e.get_proposal(pid);
    assert_eq!(p.for_votes, u64::MAX - 10);
    assert_eq!(p.against_votes, 0);
    assert_eq!(p.status, ProposalStatus::Active);
    // The rejected voters hold no record and may vote again within range.
    assert!(!e.has_voted(pid, 12));
    assert_eq!(e.cast_vote(pid, 12, VoteType::Against, 5, 40), Ok(()));
}

#[test]
fn full_lifecycle_with_hold_up() {
    let mut e = quorum_engine();
    let t0: i64 = 0;
    let pid = e.create_proposal(0, 7, String::from("p"), t0);
    // Cast the losing side first so the threshold is crossed by the last vote.
    assert_eq!(e.cast_vote(pid, 11, VoteType::Against, 300, 10), Ok(()));
    assert_eq!(e.get_proposal(pid).status, ProposalStatus::Active); // 300 < 500
    assert_eq!(e.cast_vote(pid, 12, VoteType::For, 600, 20), Ok(()));
    // total 900 >= 500 and 600 > 300: succeeded.
    assert_eq!(e.get_proposal(pid).status, ProposalStatus::Succeeded);
    // One second before the hold-up has elapsed.
    assert_eq!(e.execute_proposal(pid, t0 + WEEK + DAY - 1), Err(DaoError::HoldUpTimeNotPassed));
    assert!(!e.get_proposal(pid).executed);
    // Exactly when it has elapsed.
    assert_eq!(e.execute_proposal(pid, t0 + WEEK + DAY), Ok(()));
    {
        let p = e.get_proposal(pid);
        assert_eq!(p.status, ProposalStatus::Executed);
        assert!(p.executed);
    }
    // A second execution always fails.
    assert_eq!(
        e.execute_proposal(pid, t0 + WEEK + DAY + 1),
        Err(DaoError::ProposalAlreadyExecuted)
    );
}

#[test]
fn below_threshold_proposal_cannot_execute() {
    let mut e = quorum_engine();
    let pid = e.create_proposal(0, 7, String::from("p"), 0);
    assert_eq!(e.cast_vote(pid, 11, VoteType::For, 200, 10), Ok(()));
    assert_eq!(e.cast_vote(pid, 12, VoteType::Against, 100, 20), Ok(()));
    // total 300 < 500: not decided.
    assert_eq!(e.get_proposal(pid).status, ProposalStatus::Active);
    assert_eq!(e.execute_proposal(pid, WEEK + DAY), Err(DaoError::ProposalNotSucceeded));
    assert_eq!(e.get_proposal(pid).status, ProposalStatus::Active);
}

#[test]
fn defeated_when_ayes_do_not_outweigh() {
    let mut e = quorum_engine();
    let pid = e.create_proposal(0, 7, String::from("p"), 0);
    assert_eq!(e.cast_vote(pid, 11, VoteType::For, 300, 10), Ok(()));
    // total 600 >= 500 and the tally is tied: defeated.
    assert_eq!(e.cast_vote(pid, 12, VoteType::Against, 300, 20), Ok(()));
    assert_eq!(e.get_proposal(pid).status, ProposalStatus::Defeated);
    assert_eq!(e.execute_proposal(pid, WEEK + DAY), Err(DaoError::ProposalNotSucceeded));
}

#[test]
fn votes_cast_basis_decides_against_ballots() {
    let mut e = GovernanceEngine::new();
    let r = e.create_dao(
        1,
        String::from("participation dao"),
        2,
        1_000_000,
        ThresholdBasis::VotesCast,
        DaoConfig { voting_threshold: 50, max_voting_time: WEEK, hold_up_time: 0 },
    );
    assert_eq!(r, Ok(0));
    let pid = e.create_proposal(0, 7, String::from("p"), 0);
    // Against the ballots cast, a single aye is already 100% >= 50%.
    assert_eq!(e.cast_vote(pid, 11, VoteType::For, 10, 10), Ok(()));
    assert_eq!(e.get_proposal(pid).status, ProposalStatus::Succeeded);
    // With a zero hold-up the proposal executes right at the window's end.
    assert_eq!(e.execute_proposal(pid, WEEK), Ok(()));
}

#[test]
fn votes_cast_basis_first_nay_defeats() {
    let mut e = GovernanceEngine::new();
    let r = e.create_dao(
        1,
        String::from("participation dao"),
        2,
        1_000_000,
        ThresholdBasis::VotesCast,
        DaoConfig { voting_threshold: 50, max_voting_time: WEEK, hold_up_time: 0 },
    );
    assert_eq!(r, Ok(0));
    let pid = e.create_proposal(0, 7, String::from("p"), 0);
    // A single nay reaches the participation threshold with for <= against.
    assert_eq!(e.cast_vote(pid, 11, VoteType::Against, 10, 10), Ok(()));
    assert_eq!(e.get_proposal(pid).status, ProposalStatus::Defeated);
}

#[test]
fn execute_active_proposal_rejected_before_votes() {
    let mut e = quorum_engine();
    let pid = e.create_proposal(0, 7, String::from("p"), 0);
    assert_eq!(e.execute_proposal(pid, WEEK + DAY), Err(DaoError::ProposalNotSucceeded));
}

#[test]
fn threshold_rounds_down() {
    let mut e = GovernanceEngine::new();
    // 50% of 999 rounds down to 499.
    let r = e.create_dao(
        1,
        String::from("odd supply"),
        2,
        999,
        ThresholdBasis::TotalSupply,
        DaoConfig { voting_threshold: 50, max_voting_time: WEEK, hold_up_time: 0 },
    );
    assert_eq!(r, Ok(0));
    let pid = e.create_proposal(0, 7, String::from("p"), 0);
    assert_eq!(e.cast_vote(pid, 11, VoteType::For, 499, 10), Ok(()));
    assert_eq!(e.get_proposal(pid).status, ProposalStatus::Succeeded);
}
