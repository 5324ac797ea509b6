use vstd::prelude::*;

verus! {

/// Every way a governance operation can be rejected.
///
/// The first violated precondition aborts the whole operation with one of
/// these, and no state changes: there are no partial writes and nothing is
/// retried internally.
#[derive(Clone, Copy, Debug, PartialEq, Eq, Structural)]
pub enum DaoError {
    /// The voting threshold of a new configuration is outside 1..=100.
    InvalidVotingThreshold,
    /// The maximum voting time of a new configuration is not positive.
    InvalidVotingTime,
    /// The hold-up time of a new configuration is negative.
    InvalidHoldUpTime,
    /// A vote arrived at or after the proposal's end time.
    VotingEnded,
    /// A vote arrived while the proposal was no longer `Active`.
    ProposalNotActive,
    /// A vote carried zero weight.
    InsufficientTokens,
    /// The voter already holds a vote record for this proposal.
    AlreadyVoted,
    /// Adding the vote's weight to its tally would overflow the tally.
    VoteOverflow,
    /// Summing the two tallies for the threshold check would overflow.
    MathOverflow,
    /// Execution was attempted on a proposal that is not `Succeeded`.
    ProposalNotSucceeded,
    /// Execution was attempted a second time on the same proposal.
    ProposalAlreadyExecuted,
    /// Execution was attempted before the hold-up delay had elapsed.
    HoldUpTimeNotPassed,
}

} // verus!
