use vstd::prelude::*;

use crate::config::{config_error, validate_config, DaoConfig};
use crate::errors::DaoError;
use crate::ledger::VoteLedger;
use crate::state::{Dao, Proposal, ProposalStatus, ThresholdBasis, VoteRecord, VoteType};
use crate::stores::{DaoRegistry, ProposalStore};
use crate::tally::{decide_status, update_proposal_status};

verus! {

/// The governance engine: it owns the DAO registry, the proposal store and
/// the vote ledger, and applies every operation atomically — all checks run
/// before the first write, and the first violated check rejects the whole
/// operation with no state change.
///
/// Time-gated operations take the current time as an argument; the host owns
/// the clock. Threshold evaluation is eager: every accepted vote re-evaluates
/// the proposal's status, and execution only re-checks the stored status.
pub struct GovernanceEngine {
    pub daos: DaoRegistry,
    pub proposals: ProposalStore,
    pub votes: VoteLedger,
}

impl GovernanceEngine {
    /// One proposal record agrees with the registry: its DAO exists, its
    /// sequence number was drawn from that DAO's counter, its end time is its
    /// start time plus that DAO's voting window, and its executed flag agrees
    /// with its status.
    pub open spec fn proposal_ok(p: Proposal, daos: Seq<Dao>) -> bool {
        &&& p.dao < daos.len()
        &&& p.seq < daos[p.dao as int].proposal_count
        &&& p.end_time == p.start_time + daos[p.dao as int].config.max_voting_time
        &&& p.wf()
    }

    /// The engine's invariant: every DAO's configuration is valid, every
    /// proposal agrees with the registry, proposal keys are unique, the vote
    /// ledger holds at most one record per (proposal, voter) pair, and every
    /// vote record points at a stored proposal.
    pub open spec fn wf(self) -> bool {
        &&& forall|d: int| 0 <= d < self.daos@.len() ==> (#[trigger] self.daos@[d]).wf()
        &&& forall|i: int|
            0 <= i < self.proposals@.len() ==> Self::proposal_ok(
                #[trigger] self.proposals@[i],
                self.daos@,
            )
        &&& self.proposals.unique_keys()
        &&& self.votes.wf()
        &&& forall|i: int|
            0 <= i < self.votes@.len() ==> (#[trigger] self.votes@[i]).proposal
                < self.proposals@.len()
    }

    /// Both engines hold the same records.
    pub open spec fn state_eq(a: Self, b: Self) -> bool {
        &&& a.daos@ == b.daos@
        &&& a.proposals@ == b.proposals@
        &&& a.votes@ == b.votes@
    }

    /// An engine with no DAOs, proposals or votes.
    pub fn new() -> (e: Self)
        ensures
            e.wf(),
            e.daos@ == Seq::<Dao>::empty(),
            e.proposals@ == Seq::<Proposal>::empty(),
            e.votes@ == Seq::<VoteRecord>::empty(),
    {
        GovernanceEngine {
            daos: DaoRegistry::new(),
            proposals: ProposalStore::new(),
            votes: VoteLedger::new(),
        }
    }

    /// Number of DAOs held.
    pub fn dao_count(&self) -> (n: usize)
        ensures
            n == self.daos@.len(),
    {
        self.daos.len()
    }

    /// Number of proposals held.
    pub fn proposal_count(&self) -> (n: usize)
        ensures
            n == self.proposals@.len(),
    {
        self.proposals.len()
    }

    /// The DAO under a key.
    pub fn get_dao(&self, dao_id: usize) -> (d: &Dao)
        requires
            dao_id < self.daos@.len(),
        ensures
            *d == self.daos@[dao_id as int],
    {
        self.daos.get(dao_id)
    }

    /// The proposal under a key.
    pub fn get_proposal(&self, pid: usize) -> (p: &Proposal)
        requires
            pid < self.proposals@.len(),
        ensures
            *p == self.proposals@[pid as int],
    {
        self.proposals.get(pid)
    }

    /// The key of the proposal stored under the derived (dao, seq) address.
    pub fn find_proposal(&self, dao_id: usize, seq: u64) -> (r: Option<usize>)
        ensures
            match r {
                Some(pid) => pid < self.proposals@.len() && self.proposals@[pid as int].dao
                    == dao_id && self.proposals@[pid as int].seq == seq,
                None => forall|i: int|
                    0 <= i < self.proposals@.len() ==> !((#[trigger] self.proposals@[i]).dao
                        == dao_id && self.proposals@[i].seq == seq),
            },
    {
        self.proposals.find_proposal(dao_id, seq)
    }

    /// Whether the voter already has a vote record for the proposal.
    pub fn has_voted(&self, pid: usize, voter: u64) -> (b: bool)
        ensures
            b == self.votes.has_vote(pid as int, voter),
    {
        self.votes.contains_vote(pid, voter)
    }

    /// What `create_dao` does: a valid configuration persists a new DAO with
    /// a zeroed proposal counter and hands back its key; an invalid one is
    /// rejected with the first violated rule's error and changes nothing.
    pub open spec fn create_dao_post(
        pre: Self,
        post: Self,
        authority: u64,
        name: String,
        community_token: u64,
        total_supply: u64,
        basis: ThresholdBasis,
        config: DaoConfig,
        r: Result<usize, DaoError>,
    ) -> bool {
        if config.valid() {
            &&& r == Ok::<usize, DaoError>(pre.daos@.len() as usize)
            &&& post.daos@ == pre.daos@.push(
                Dao { authority, name, community_token, total_supply, basis, config, proposal_count: 0 },
            )
            &&& post.proposals@ == pre.proposals@
            &&& post.votes@ == pre.votes@
        } else {
            &&& r == Err::<usize, DaoError>(config_error(config))
            &&& Self::state_eq(pre, post)
        }
    }

    /// Validates the configuration and, on success, persists a new DAO as one
    /// atomic unit. The recorded authority and token reference are immutable
    /// afterwards, and no operation of this engine updates a configuration.
    pub fn create_dao(
        &mut self,
        authority: u64,
        name: String,
        community_token: u64,
        total_supply: u64,
        basis: ThresholdBasis,
        config: DaoConfig,
    ) -> (r: Result<usize, DaoError>)
        requires
            old(self).wf(),
        ensures
            final(self).wf(),
            Self::create_dao_post(
                *old(self),
                *final(self),
                authority,
                name,
                community_token,
                total_supply,
                basis,
                config,
                r,
            ),
    {
        match validate_config(&config) {
            Err(e) => Err(e),
            Ok(()) => {
                let dao = Dao {
                    authority,
                    name,
                    community_token,
                    total_supply,
                    basis,
                    config,
                    proposal_count: 0,
                };
                let id = self.daos.add_dao(dao);
                Ok(id)
            },
        }
    }

    /// The proposal `create_proposal` persists: zeroed tallies, `Active`
    /// status, not executed, window from `now` to `now` plus the DAO's
    /// voting time, keyed by the DAO's current counter.
    pub open spec fn created_proposal(
        dao_id: usize,
        dao: Dao,
        creator: u64,
        description: String,
        now: i64,
    ) -> Proposal {
        Proposal {
            dao: dao_id,
            seq: dao.proposal_count,
            creator,
            description,
            for_votes: 0,
            against_votes: 0,
            start_time: now,
            end_time: (now + dao.config.max_voting_time) as i64,
            executed: false,
            status: ProposalStatus::Active,
        }
    }

    /// What `create_proposal` does: the new proposal is appended, the DAO's
    /// counter advances by one, and nothing else changes.
    pub open spec fn create_proposal_post(
        pre: Self,
        post: Self,
        dao_id: usize,
        creator: u64,
        description: String,
        now: i64,
        pid: usize,
    ) -> bool {
        &&& pid == pre.proposals@.len()
        &&& post.proposals@ == pre.proposals@.push(
            Self::created_proposal(dao_id, pre.daos@[dao_id as int], creator, description, now),
        )
        &&& post.daos@ == pre.daos@.update(
            dao_id as int,
            Dao {
                proposal_count: (pre.daos@[dao_id as int].proposal_count + 1) as u64,
                ..pre.daos@[dao_id as int]
            },
        )
        &&& post.votes@ == pre.votes@
    }

    /// Builds a new `Active` proposal whose voting window starts now, and
    /// persists it together with the advanced DAO counter as one atomic
    /// unit. Always succeeds for a stored DAO, within the machine limits the
    /// preconditions state.
    pub fn create_proposal(&mut self, dao_id: usize, creator: u64, description: String, now: i64) -> (pid: usize)
        requires
            old(self).wf(),
            dao_id < old(self).daos@.len(),
            old(self).daos@[dao_id as int].proposal_count < u64::MAX,
            now + old(self).daos@[dao_id as int].config.max_voting_time <= i64::MAX,
        ensures
            final(self).wf(),
            Self::create_proposal_post(
                *old(self),
                *final(self),
                dao_id,
                creator,
                description,
                now,
                pid,
            ),
    {
        proof {
            assert(old(self).daos@[dao_id as int].wf());
        }
        let dao = self.daos.get(dao_id);
        let seq = dao.proposal_count;
        let max_voting_time = dao.config.max_voting_time;
        let end_time = now + max_voting_time;
        let proposal = Proposal {
            dao: dao_id,
            seq,
            creator,
            description,
            for_votes: 0,
            against_votes: 0,
            start_time: now,
            end_time,
            executed: false,
            status: ProposalStatus::Active,
        };
        let pid = self.proposals.add_proposal(proposal);
        self.daos.bump_proposal_count(dao_id);
        proof {
            Self::lemma_create_proposal_wf(*old(self), *self, dao_id, pid as int);
        }
        pid
    }

    /// Whether adding the vote's weight to its side's tally overflows.
    pub open spec fn vote_tally_overflows(p: Proposal, choice: VoteType, weight: u64) -> bool {
        match choice {
            VoteType::For => p.for_votes + weight > u64::MAX,
            VoteType::Against => p.against_votes + weight > u64::MAX,
        }
    }

    /// The amount the voting threshold is measured against, per the DAO's
    /// recorded basis.
    pub open spec fn threshold_reference(dao: Dao, total_votes: u64) -> u64 {
        match dao.basis {
            ThresholdBasis::TotalSupply => dao.total_supply,
            ThresholdBasis::VotesCast => total_votes,
        }
    }

    /// The exact verdict of `cast_vote`, checked in the order: voting window,
    /// status, weight, duplicate vote, tally overflow, total overflow.
    pub open spec fn cast_vote_result(
        pre: Self,
        pid: usize,
        voter: u64,
        choice: VoteType,
        weight: u64,
        now: i64,
    ) -> Result<(), DaoError> {
        let p = pre.proposals@[pid as int];
        if now >= p.end_time {
            Err(DaoError::VotingEnded)
        } else if !(p.status is Active) {
            Err(DaoError::ProposalNotActive)
        } else if weight == 0 {
            Err(DaoError::InsufficientTokens)
        } else if pre.votes.has_vote(pid as int, voter) {
            Err(DaoError::AlreadyVoted)
        } else if Self::vote_tally_overflows(p, choice, weight) {
            Err(DaoError::VoteOverflow)
        } else if p.for_votes + p.against_votes + weight > u64::MAX {
            Err(DaoError::MathOverflow)
        } else {
            Ok(())
        }
    }

    /// The proposal after an accepted vote: the chosen tally grows by exactly
    /// the weight, the other tally keeps its value, and the status is
    /// re-evaluated eagerly against the DAO's threshold. Nothing else
    /// changes, in particular not the voting window.
    pub open spec fn voted_proposal(p: Proposal, dao: Dao, choice: VoteType, weight: u64) -> Proposal {
        let nf = if choice is For {
            (p.for_votes + weight) as u64
        } else {
            p.for_votes
        };
        let na = if choice is Against {
            (p.against_votes + weight) as u64
        } else {
            p.against_votes
        };
        let reference = Self::threshold_reference(dao, (nf + na) as u64);
        Proposal {
            for_votes: nf,
            against_votes: na,
            status: decide_status(nf, na, reference, dao.config.voting_threshold),
            ..p
        }
    }

    /// What `cast_vote` does: the verdict is exactly `cast_vote_result`; a
    /// rejected vote changes nothing; an accepted one updates the proposal,
    /// appends the one new vote record, and touches nothing else.
    pub open spec fn cast_vote_post(
        pre: Self,
        post: Self,
        pid: usize,
        voter: u64,
        choice: VoteType,
        weight: u64,
        now: i64,
        r: Result<(), DaoError>,
    ) -> bool {
        &&& r == Self::cast_vote_result(pre, pid, voter, choice, weight, now)
        &&& if r is Ok {
            let p = pre.proposals@[pid as int];
            let dao = pre.daos@[p.dao as int];
            &&& post.daos@ == pre.daos@
            &&& post.proposals@ == pre.proposals@.update(
                pid as int,
                Self::voted_proposal(p, dao, choice, weight),
            )
            &&& post.votes@ == pre.votes@.push(
                VoteRecord { proposal: pid, voter, choice, voted: true },
            )
        } else {
            Self::state_eq(pre, post)
        }
    }

    /// Accumulates a weighted vote into a proposal, first vote per voter
    /// only, strictly inside the voting window, with checked arithmetic.
    /// Every check runs before the first write, so a rejected vote leaves
    /// all records untouched.
    pub fn cast_vote(&mut self, pid: usize, voter: u64, choice: VoteType, weight: u64, now: i64) -> (r:
        Result<(), DaoError>)
        requires
            old(self).wf(),
            pid < old(self).proposals@.len(),
        ensures
            final(self).wf(),
            Self::cast_vote_post(*old(self), *final(self), pid, voter, choice, weight, now, r),
    {
        proof {
            assert(Self::proposal_ok(old(self).proposals@[pid as int], old(self).daos@));
        }
        let p = self.proposals.get(pid);
        let end_time = p.end_time;
        let status = p.status;
        let for_votes = p.for_votes;
        let against_votes = p.against_votes;
        let dao_id = p.dao;
        if now >= end_time {
            return Err(DaoError::VotingEnded);
        }
        if status != ProposalStatus::Active {
            return Err(DaoError::ProposalNotActive);
        }
        if weight == 0 {
            return Err(DaoError::InsufficientTokens);
        }
        if self.votes.contains_vote(pid, voter) {
            return Err(DaoError::AlreadyVoted);
        }
        let tallies = match choice {
            VoteType::For => (for_votes.checked_add(weight), Some(against_votes)),
            VoteType::Against => (Some(for_votes), against_votes.checked_add(weight)),
        };
        let new_for = match tallies.0 {
            Some(v) => v,
            None => {
                return Err(DaoError::VoteOverflow);
            },
        };
        let new_against = match tallies.1 {
            Some(v) => v,
            None => {
                return Err(DaoError::VoteOverflow);
            },
        };
        let total = match new_for.checked_add(new_against) {
            Some(v) => v,
            None => {
                return Err(DaoError::MathOverflow);
            },
        };
        proof {
            assert(old(self).daos@[dao_id as int].wf());
        }
        let dao = self.daos.get(dao_id);
        let reference = match dao.basis {
            ThresholdBasis::TotalSupply => dao.total_supply,
            ThresholdBasis::VotesCast => total,
        };
        let new_status = update_proposal_status(
            new_for,
            new_against,
            reference,
            dao.config.voting_threshold,
        );
        self.proposals.set_vote_state(pid, new_for, new_against, new_status);
        let _ = self.votes.record_vote(pid, voter, choice);
        proof {
            let pre = *old(self);
            let p0 = pre.proposals@[pid as int];
            let dao0 = pre.daos@[p0.dao as int];
            let vp = Self::voted_proposal(p0, dao0, choice, weight);
            assert(self.proposals@[pid as int] == vp);
            assert(self.proposals@ == pre.proposals@.update(pid as int, vp));
            Self::lemma_update_keeps_wf(pre, *self, pid as int);
        }
        Ok(())
    }

    /// The exact verdict of `execute_proposal`, checked in the order:
    /// already executed, status, hold-up delay.
    pub open spec fn execute_result(pre: Self, pid: usize, now: i64) -> Result<(), DaoError> {
        let p = pre.proposals@[pid as int];
        let dao = pre.daos@[p.dao as int];
        if p.executed {
            Err(DaoError::ProposalAlreadyExecuted)
        } else if !(p.status is Succeeded) {
            Err(DaoError::ProposalNotSucceeded)
        } else if now < p.end_time + dao.config.hold_up_time {
            Err(DaoError::HoldUpTimeNotPassed)
        } else {
            Ok(())
        }
    }

    /// What `execute_proposal` does: the verdict is exactly
    /// `execute_result`; a rejected execution changes nothing; an accepted
    /// one flips the proposal to `Executed`, terminally, and touches nothing
    /// else.
    pub open spec fn execute_post(pre: Self, post: Self, pid: usize, now: i64, r: Result<
        (),
        DaoError,
    >) -> bool {
        &&& r == Self::execute_result(pre, pid, now)
        &&& if r is Ok {
            &&& post.daos@ == pre.daos@
            &&& post.proposals@ == pre.proposals@.update(
                pid as int,
                Proposal {
                    status: ProposalStatus::Executed,
                    executed: true,
                    ..pre.proposals@[pid as int]
                },
            )
            &&& post.votes@ == pre.votes@
        } else {
            Self::state_eq(pre, post)
        }
    }

    /// Executes a succeeded proposal once its hold-up delay has elapsed.
    /// Succeeds at most once per proposal; afterwards the record is immutable
    /// and every further attempt is rejected.
    pub fn execute_proposal(&mut self, pid: usize, now: i64) -> (r: Result<(), DaoError>)
        requires
            old(self).wf(),
            pid < old(self).proposals@.len(),
        ensures
            final(self).wf(),
            Self::execute_post(*old(self), *final(self), pid, now, r),
    {
        proof {
            assert(Self::proposal_ok(old(self).proposals@[pid as int], old(self).daos@));
        }
        let p = self.proposals.get(pid);
        let executed = p.executed;
        let status = p.status;
        let end_time = p.end_time;
        let dao_id = p.dao;
        if executed {
            return Err(DaoError::ProposalAlreadyExecuted);
        }
        if status != ProposalStatus::Succeeded {
            return Err(DaoError::ProposalNotSucceeded);
        }
        let dao = self.daos.get(dao_id);
        let deadline: i128 = (end_time as i128) + (dao.config.hold_up_time as i128);
        if (now as i128) < deadline {
            return Err(DaoError::HoldUpTimeNotPassed);
        }
        self.proposals.mark_executed(pid);
        proof {
            Self::lemma_update_keeps_wf(*old(self), *self, pid as int);
        }
        Ok(())
    }

    /// The invariant survives an update of one proposal that keeps its key,
    /// its voting window and the agreement between flag and status, together
    /// with at most one appended vote record for a stored proposal.
    proof fn lemma_update_keeps_wf(pre: Self, post: Self, pid: int)
        requires
            pre.wf(),
            0 <= pid < pre.proposals@.len(),
            post.daos@ == pre.daos@,
            post.proposals@.len() == pre.proposals@.len(),
            forall|i: int|
                0 <= i < pre.proposals@.len() && i != pid ==> post.proposals@[i]
                    == pre.proposals@[i],
            post.proposals@[pid].dao == pre.proposals@[pid].dao,
            post.proposals@[pid].seq == pre.proposals@[pid].seq,
            post.proposals@[pid].start_time == pre.proposals@[pid].start_time,
            post.proposals@[pid].end_time == pre.proposals@[pid].end_time,
            post.proposals@[pid].wf(),
            post.votes.wf(),
            post.votes@.len() == pre.votes@.len() || (post.votes@.len() == pre.votes@.len() + 1
                && post.votes@[pre.votes@.len() as int].proposal < post.proposals@.len()),
            forall|i: int| 0 <= i < pre.votes@.len() ==> post.votes@[i] == pre.votes@[i],
        ensures
            post.wf(),
    {
        assert forall|i: int| 0 <= i < post.proposals@.len() implies Self::proposal_ok(
            #[trigger] post.proposals@[i],
            post.daos@,
        ) by {
            assert(Self::proposal_ok(pre.proposals@[i], pre.daos@));
        }
        assert forall|i: int, j: int| 0 <= i < j < post.proposals@.len() implies !((
        #[trigger] post.proposals@[i]).dao == (#[trigger] post.proposals@[j]).dao
            && post.proposals@[i].seq == post.proposals@[j].seq) by {
            assert(post.proposals@[i].dao == pre.proposals@[i].dao && post.proposals@[i].seq
                == pre.proposals@[i].seq);
            assert(post.proposals@[j].dao == pre.proposals@[j].dao && post.proposals@[j].seq
                == pre.proposals@[j].seq);
        }
        assert forall|i: int| 0 <= i < post.votes@.len() implies (#[trigger] post.votes@[i]).proposal
            < post.proposals@.len() by {
            if i < pre.votes@.len() {
                assert(pre.votes@[i].proposal < pre.proposals@.len());
            }
        }
    }

    /// The invariant survives `create_proposal`.
    proof fn lemma_create_proposal_wf(pre: Self, post: Self, dao_id: usize, pid: int)
        requires
            pre.wf(),
            dao_id < pre.daos@.len(),
            pre.daos@[dao_id as int].proposal_count < u64::MAX,
            pid == pre.proposals@.len(),
            post.daos@ == pre.daos@.update(
                dao_id as int,
                Dao {
                    proposal_count: (pre.daos@[dao_id as int].proposal_count + 1) as u64,
                    ..pre.daos@[dao_id as int]
                },
            ),
            post.proposals@.len() == pre.proposals@.len() + 1,
            forall|i: int|
                0 <= i < pre.proposals@.len() ==> post.proposals@[i] == pre.proposals@[i],
            post.proposals@[pid].dao == dao_id,
            post.proposals@[pid].seq == pre.daos@[dao_id as int].proposal_count,
            post.proposals@[pid].end_time == post.proposals@[pid].start_time + pre.daos@[dao_id as int].config.max_voting_time,
            post.proposals@[pid].wf(),
            post.votes@ == pre.votes@,
        ensures
            post.wf(),
    {
        assert forall|d: int| 0 <= d < post.daos@.len() implies (#[trigger] post.daos@[d]).wf() by {
            assert(pre.daos@[d].wf());
        }
        assert forall|i: int| 0 <= i < post.proposals@.len() implies Self::proposal_ok(
            #[trigger] post.proposals@[i],
            post.daos@,
        ) by {
            if i < pre.proposals@.len() {
                assert(Self::proposal_ok(pre.proposals@[i], pre.daos@));
                assert(post.daos@[pre.proposals@[i].dao as int].config == pre.daos@[pre.proposals@[i].dao as int].config);
                assert(post.daos@[pre.proposals@[i].dao as int].proposal_count >= pre.daos@[pre.proposals@[i].dao as int].proposal_count);
            } else {
                assert(post.daos@[dao_id as int].proposal_count == pre.daos@[dao_id as int].proposal_count + 1);
            }
        }
        assert forall|i: int, j: int| 0 <= i < j < post.proposals@.len() implies !((
        #[trigger] post.proposals@[i]).dao == (#[trigger] post.proposals@[j]).dao
            && post.proposals@[i].seq == post.proposals@[j].seq) by {
            if j == pid {
                assert(Self::proposal_ok(pre.proposals@[i], pre.daos@));
            }
        }
    }
}

} // verus!
