use vstd::prelude::*;

use crate::config::DaoConfig;

verus! {

/// Lifecycle state of a proposal.
///
/// The only transitions are `Active -> Succeeded`, `Active -> Defeated` and
/// `Succeeded -> Executed`; `Defeated` and `Executed` are terminal.
#[derive(Clone, Copy, Debug, PartialEq, Eq, Structural)]
pub enum ProposalStatus {
    Active,
    Succeeded,
    Defeated,
    Executed,
}

/// Which side a vote lands on.
#[derive(Clone, Copy, Debug, PartialEq, Eq, Structural)]
pub enum VoteType {
    For,
    Against,
}

/// The denominator the voting threshold is measured against.
///
/// The two natural readings of a percentage threshold disagree: a quorum of
/// the whole electorate measures participation against the community token's
/// total supply, while a participation-relative threshold measures it against
/// the ballots cast so far. The same tallies can pass under one reading and
/// not under the other, so the choice is recorded per DAO at creation instead
/// of being hard-wired.
#[derive(Clone, Copy, Debug, PartialEq, Eq, Structural)]
pub enum ThresholdBasis {
    /// Threshold percent of the community token's total supply.
    TotalSupply,
    /// Threshold percent of the votes cast on the proposal so far.
    VotesCast,
}

/// One governed organization: its identity data, voting token reference,
/// configuration and proposal counter.
///
/// Identities are opaque numeric keys; an external authentication layer has
/// already verified them before they reach the engine.
pub struct Dao {
    /// Key of the administrator identity.
    pub authority: u64,
    /// Human-readable name.
    pub name: String,
    /// Key of the community token whose holdings weigh votes.
    pub community_token: u64,
    /// Total supply of the community token at creation, the electorate size.
    pub total_supply: u64,
    /// Which denominator the voting threshold is measured against.
    pub basis: ThresholdBasis,
    /// Immutable governance configuration.
    pub config: DaoConfig,
    /// Number of proposals created so far; the next proposal's sequence
    /// number. Monotonically increasing.
    pub proposal_count: u64,
}

impl Dao {
    /// A DAO record the engine accepts: its configuration is valid.
    pub open spec fn wf(self) -> bool {
        self.config.valid()
    }
}

/// One decision under vote, keyed by (dao, seq).
pub struct Proposal {
    /// Store index of the owning DAO.
    pub dao: usize,
    /// Sequence number within the DAO, taken from its proposal counter.
    pub seq: u64,
    /// Key of the creator identity.
    pub creator: u64,
    /// What is being decided.
    pub description: String,
    /// Accumulated weight of votes in favor. Never decreases.
    pub for_votes: u64,
    /// Accumulated weight of votes against. Never decreases.
    pub against_votes: u64,
    /// When the voting window opened (seconds since the epoch).
    pub start_time: i64,
    /// When the voting window closes: always `start_time` plus the DAO's
    /// `max_voting_time`, fixed at creation.
    pub end_time: i64,
    /// Whether the proposal has been executed. Flips false -> true once.
    pub executed: bool,
    /// Lifecycle state.
    pub status: ProposalStatus,
}

impl Proposal {
    /// The executed flag and the status agree.
    pub open spec fn wf(self) -> bool {
        self.executed <==> self.status is Executed
    }
}

/// The reflexive transition order on statuses: `status_le(a, b)` holds when a
/// proposal in state `a` may later be found in state `b`.
pub open spec fn status_le(a: ProposalStatus, b: ProposalStatus) -> bool {
    match (a, b) {
        (ProposalStatus::Active, _) => true,
        (ProposalStatus::Succeeded, ProposalStatus::Succeeded) => true,
        (ProposalStatus::Succeeded, ProposalStatus::Executed) => true,
        (ProposalStatus::Defeated, ProposalStatus::Defeated) => true,
        (ProposalStatus::Executed, ProposalStatus::Executed) => true,
        _ => false,
    }
}

/// The unique marker that a voter has voted on a proposal. At most one record
/// exists per (proposal, voter) pair; that uniqueness is the double-vote
/// guard.
#[derive(Clone, Copy, Debug, PartialEq, Eq, Structural)]
pub struct VoteRecord {
    /// Store index of the proposal voted on.
    pub proposal: usize,
    /// Key of the voter identity.
    pub voter: u64,
    /// The recorded choice.
    pub choice: VoteType,
    /// Always true once the record exists.
    pub voted: bool,
}

} // verus!
