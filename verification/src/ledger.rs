use vstd::prelude::*;

use crate::errors::DaoError;
use crate::state::{VoteRecord, VoteType};

verus! {

/// The ledger of vote records. It holds at most one record per
/// (proposal, voter) pair; creating a record is an insert-if-absent whose
/// collision is the duplicate-vote error, and records are never mutated or
/// deleted afterwards.
pub struct VoteLedger {
    pub records: Vec<VoteRecord>,
}

impl View for VoteLedger {
    type V = Seq<VoteRecord>;

    open spec fn view(&self) -> Seq<VoteRecord> {
        self.records@
    }
}

impl VoteLedger {
    /// A record for this (proposal, voter) pair exists.
    pub open spec fn has_vote(self, proposal: int, voter: u64) -> bool {
        exists|i: int|
            0 <= i < self@.len() && (#[trigger] self@[i]).proposal == proposal
                && self@[i].voter == voter
    }

    /// No two records share a (proposal, voter) pair, and every record is
    /// marked voted.
    pub open spec fn wf(self) -> bool {
        &&& forall|i: int, j: int|
            0 <= i < j < self@.len() ==> !((#[trigger] self@[i]).proposal == (
            #[trigger] self@[j]).proposal && self@[i].voter == self@[j].voter)
        &&& forall|i: int| 0 <= i < self@.len() ==> (#[trigger] self@[i]).voted
    }

    /// An empty ledger.
    pub fn new() -> (l: Self)
        ensures
            l@ == Seq::<VoteRecord>::empty(),
            l.wf(),
    {
        VoteLedger { records: Vec::new() }
    }

    /// Number of records held.
    pub fn len(&self) -> (n: usize)
        ensures
            n == self@.len(),
    {
        self.records.len()
    }

    /// The record at a position.
    pub fn get(&self, i: usize) -> (r: &VoteRecord)
        requires
            i < self@.len(),
        ensures
            *r == self@[i as int],
    {
        &self.records[i]
    }

    /// Whether the voter already has a record for the proposal.
    pub fn contains_vote(&self, proposal: usize, voter: u64) -> (b: bool)
        ensures
            b == self.has_vote(proposal as int, voter),
    {
        let n = self.records.len();
        let mut i: usize = 0;
        while i < n
            invariant
                n == self@.len(),
                i <= n,
                forall|j: int|
                    0 <= j < i ==> !((#[trigger] self@[j]).proposal == proposal && self@[j].voter
                        == voter),
            decreases n - i,
        {
            let rec = &self.records[i];
            if rec.proposal == proposal && rec.voter == voter {
                return true;
            }
            i = i + 1;
        }
        false
    }

    /// Creates the vote record for (proposal, voter) unless one exists: the
    /// linearizable insert-if-absent that makes a second vote by the same
    /// voter on the same proposal fail, whatever its choice.
    pub fn record_vote(&mut self, proposal: usize, voter: u64, choice: VoteType) -> (r: Result<
        (),
        DaoError,
    >)
        requires
            old(self).wf(),
        ensures
            final(self).wf(),
            old(self).has_vote(proposal as int, voter) ==> r == Err::<(), DaoError>(
                DaoError::AlreadyVoted,
            ) && final(self)@ == old(self)@,
            !old(self).has_vote(proposal as int, voter) ==> r == Ok::<(), DaoError>(())
                && final(self)@ == old(self)@.push(
                VoteRecord { proposal, voter, choice, voted: true },
            ),
    {
        if self.contains_vote(proposal, voter) {
            return Err(DaoError::AlreadyVoted);
        }
        let rec = VoteRecord { proposal, voter, choice, voted: true };
        self.records.push(rec);
        proof {
            let o = old(self)@;
            let s = self@;
            assert forall|i: int, j: int| 0 <= i < j < s.len() implies !((#[trigger] s[i]).proposal
                == (#[trigger] s[j]).proposal && s[i].voter == s[j].voter) by {
                if j == o.len() {
                    if s[i].proposal == proposal && s[i].voter == voter {
                        assert(o[i].proposal == proposal && o[i].voter == voter);
                        assert(old(self).has_vote(proposal as int, voter));
                    }
                }
            }
        }
        Ok(())
    }
}

} // verus!
