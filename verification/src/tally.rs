use vstd::prelude::*;

use crate::state::ProposalStatus;

verus! {

/// Number of vote-weight units the tallies must reach for the proposal to be
/// decided: `voting_threshold` percent of the reference amount, rounded down.
pub open spec fn threshold_votes(total_reference: u64, voting_threshold: u8) -> int {
    (total_reference * voting_threshold) / 100
}

/// The status a proposal's tallies earn under eager evaluation: once the
/// votes cast reach the threshold the proposal is decided, for the ayes only
/// when they strictly outweigh the nays; below the threshold it stays
/// `Active`.
pub open spec fn decide_status(
    for_votes: u64,
    against_votes: u64,
    total_reference: u64,
    voting_threshold: u8,
) -> ProposalStatus {
    if for_votes + against_votes >= threshold_votes(total_reference, voting_threshold) {
        if for_votes > against_votes {
            ProposalStatus::Succeeded
        } else {
            ProposalStatus::Defeated
        }
    } else {
        ProposalStatus::Active
    }
}

/// Computes the threshold in double-width arithmetic so the percentage
/// multiplication cannot overflow; the result always fits back into a tally.
pub fn compute_threshold(total_reference: u64, voting_threshold: u8) -> (t: u64)
    requires
        voting_threshold <= 100,
    ensures
        t == threshold_votes(total_reference, voting_threshold),
{
    proof {
        assert(total_reference * voting_threshold <= u64::MAX * 100) by (nonlinear_arith)
            requires total_reference <= u64::MAX && voting_threshold <= 100;
    }
    let wide: u128 = (total_reference as u128) * (voting_threshold as u128);
    let scaled: u128 = wide / 100;
    proof {
        assert((total_reference * voting_threshold) / 100 <= total_reference)
            by (nonlinear_arith)
            requires voting_threshold <= 100;
    }
    scaled as u64
}

/// Re-evaluates a proposal's status from its tallies, the threshold
/// reference amount and the threshold percent.
pub fn update_proposal_status(
    for_votes: u64,
    against_votes: u64,
    total_reference: u64,
    voting_threshold: u8,
) -> (s: ProposalStatus)
    requires
        voting_threshold <= 100,
        for_votes + against_votes <= u64::MAX,
    ensures
        s == decide_status(for_votes, against_votes, total_reference, voting_threshold),
{
    let total: u64 = for_votes + against_votes;
    let threshold: u64 = compute_threshold(total_reference, voting_threshold);
    if total >= threshold {
        if for_votes > against_votes {
            ProposalStatus::Succeeded
        } else {
            ProposalStatus::Defeated
        }
    } else {
        ProposalStatus::Active
    }
}

} // verus!
