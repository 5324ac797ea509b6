use vstd::prelude::*;

use crate::state::{Dao, Proposal, ProposalStatus};

verus! {

/// The keyed store of DAO records. A DAO's key is its index in the store;
/// records are created once and only their proposal counter ever changes.
pub struct DaoRegistry {
    pub daos: Vec<Dao>,
}

impl View for DaoRegistry {
    type V = Seq<Dao>;

    open spec fn view(&self) -> Seq<Dao> {
        self.daos@
    }
}

impl DaoRegistry {
    /// An empty registry.
    pub fn new() -> (r: Self)
        ensures
            r@ == Seq::<Dao>::empty(),
    {
        DaoRegistry { daos: Vec::new() }
    }

    /// Number of DAOs held.
    pub fn len(&self) -> (n: usize)
        ensures
            n == self@.len(),
    {
        self.daos.len()
    }

    /// The DAO under a key.
    pub fn get(&self, id: usize) -> (d: &Dao)
        requires
            id < self@.len(),
        ensures
            *d == self@[id as int],
    {
        &self.daos[id]
    }

    /// Persists a new DAO and hands back its key.
    pub fn add_dao(&mut self, dao: Dao) -> (id: usize)
        ensures
            id == old(self)@.len(),
            final(self)@ == old(self)@.push(dao),
    {
        let id = self.daos.len();
        self.daos.push(dao);
        id
    }

    /// Advances a DAO's proposal counter by one; nothing else changes.
    pub fn bump_proposal_count(&mut self, id: usize)
        requires
            id < old(self)@.len(),
            old(self)@[id as int].proposal_count < u64::MAX,
        ensures
            final(self)@ == old(self)@.update(
                id as int,
                Dao {
                    proposal_count: (old(self)@[id as int].proposal_count + 1) as u64,
                    ..old(self)@[id as int]
                },
            ),
    {
        let d = &mut self.daos[id];
        d.proposal_count = d.proposal_count + 1;
    }
}

/// The keyed store of proposal records. A proposal's key is its index in the
/// store; each record also carries the derived pair (dao, seq), unique over
/// the store.
pub struct ProposalStore {
    pub proposals: Vec<Proposal>,
}

impl View for ProposalStore {
    type V = Seq<Proposal>;

    open spec fn view(&self) -> Seq<Proposal> {
        self.proposals@
    }
}

impl ProposalStore {
    /// No two proposals share a (dao, seq) pair.
    pub open spec fn unique_keys(self) -> bool {
        forall|i: int, j: int|
            0 <= i < j < self@.len() ==> !((#[trigger] self@[i]).dao == (
            #[trigger] self@[j]).dao && self@[i].seq == self@[j].seq)
    }

    /// An empty store.
    pub fn new() -> (s: Self)
        ensures
            s@ == Seq::<Proposal>::empty(),
            s.unique_keys(),
    {
        ProposalStore { proposals: Vec::new() }
    }

    /// Number of proposals held.
    pub fn len(&self) -> (n: usize)
        ensures
            n == self@.len(),
    {
        self.proposals.len()
    }

    /// The proposal under a key.
    pub fn get(&self, pid: usize) -> (p: &Proposal)
        requires
            pid < self@.len(),
        ensures
            *p == self@[pid as int],
    {
        &self.proposals[pid]
    }

    /// Looks a proposal up by its derived (dao, seq) address. With unique
    /// keys the result is the one record created under that address, or
    /// `None` when no proposal of that DAO carries that sequence number.
    pub fn find_proposal(&self, dao_id: usize, seq: u64) -> (r: Option<usize>)
        ensures
            match r {
                Some(pid) => pid < self@.len() && self@[pid as int].dao == dao_id
                    && self@[pid as int].seq == seq,
                None => forall|i: int|
                    0 <= i < self@.len() ==> !((#[trigger] self@[i]).dao == dao_id && self@[i].seq
                        == seq),
            },
    {
        let n = self.proposals.len();
        let mut i: usize = 0;
        while i < n
            invariant
                n == self@.len(),
                i <= n,
                forall|j: int|
                    0 <= j < i ==> !((#[trigger] self@[j]).dao == dao_id && self@[j].seq == seq),
            decreases n - i,
        {
            let p = &self.proposals[i];
            if p.dao == dao_id && p.seq == seq {
                return Some(i);
            }
            i = i + 1;
        }
        None
    }

    /// Persists a new proposal and hands back its key.
    pub fn add_proposal(&mut self, proposal: Proposal) -> (pid: usize)
        ensures
            pid == old(self)@.len(),
            final(self)@ == old(self)@.push(proposal),
    {
        let pid = self.proposals.len();
        self.proposals.push(proposal);
        pid
    }

    /// Writes a proposal's new tallies and status; every other field keeps
    /// its value.
    pub fn set_vote_state(
        &mut self,
        pid: usize,
        for_votes: u64,
        against_votes: u64,
        status: ProposalStatus,
    )
        requires
            pid < old(self)@.len(),
        ensures
            final(self)@ == old(self)@.update(
                pid as int,
                Proposal { for_votes, against_votes, status, ..old(self)@[pid as int] },
            ),
    {
        let p = &mut self.proposals[pid];
        p.for_votes = for_votes;
        p.against_votes = against_votes;
        p.status = status;
    }

    /// Marks a proposal executed: its status becomes `Executed` and its
    /// executed flag flips to true; every other field keeps its value.
    pub fn mark_executed(&mut self, pid: usize)
        requires
            pid < old(self)@.len(),
        ensures
            final(self)@ == old(self)@.update(
                pid as int,
                Proposal {
                    status: ProposalStatus::Executed,
                    executed: true,
                    ..old(self)@[pid as int]
                },
            ),
    {
        let p = &mut self.proposals[pid];
        p.status = ProposalStatus::Executed;
        p.executed = true;
    }
}

} // verus!
