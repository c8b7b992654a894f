use vstd::prelude::*;

use crate::errors::VoteError;

verus! {

/// Identifier of a proposal: its position in the list the session was
/// created with. Ids are assigned sequentially from 0, so at most 256
/// proposals fit.
pub type ProposalId = u8;

/// One proposal: its immutable name and its running vote count.
#[derive(Clone, Debug, PartialEq, Eq)]
pub struct Proposal {
    pub name: String,
    pub vote_count: u32,
}

/// The fixed, ordered set of proposals of one session, with their running
/// vote counts. Proposals are never added or removed after initialization;
/// the counts move only through [`ProposalRegistry::increment`] and
/// [`ProposalRegistry::decrement`].
pub struct ProposalRegistry {
    names: Vec<String>,
    counts: Vec<u32>,
}

impl ProposalRegistry {
    /// The vote count of each proposal, indexed by proposal id.
    pub closed spec fn counts(self) -> Seq<int> {
        self.counts@.map_values(|c: u32| c as int)
    }

    /// The name of the proposal with id `i`.
    pub closed spec fn name_at(self, i: int) -> Seq<char> {
        self.names@[i]@
    }

    /// How many proposals the registry holds.
    pub open spec fn spec_len(self) -> nat {
        self.counts().len()
    }

    /// A registry is well formed when every proposal id fits in
    /// `ProposalId` and each proposal has a name.
    pub closed spec fn wf(self) -> bool {
        &&& self.counts@.len() == self.names@.len()
        &&& self.counts@.len() <= 256
    }

    /// Every proposal id of a well-formed registry fits in `ProposalId`.
    pub proof fn lemma_wf_bound(self)
        requires
            self.wf(),
        ensures
            self.spec_len() <= 256,
    {
    }

    /// Builds the registry from the ordered proposal names: ids run from 0
    /// to `proposal_names.len() - 1` in input order, every count starts at 0.
    pub fn initialize(proposal_names: Vec<String>) -> (r: Self)
        requires
            proposal_names@.len() <= 256,
        ensures
            r.wf(),
            r.spec_len() == proposal_names@.len(),
            forall|i: int| 0 <= i < r.spec_len() ==> r.counts()[i] == 0,
            forall|i: int| 0 <= i < r.spec_len() ==> r.name_at(i) == proposal_names@[i]@,
    {
        let n = proposal_names.len();
        let mut counts: Vec<u32> = Vec::new();
        let mut i: usize = 0;
        while i < n
            invariant
                i <= n,
                counts@.len() == i,
                forall|j: int| 0 <= j < i ==> counts@[j] == 0u32,
            decreases n - i,
        {
            counts.push(0);
            i = i + 1;
        }
        ProposalRegistry { names: proposal_names, counts }
    }

    /// How many proposals the registry holds.
    pub fn len(&self) -> (n: usize)
        ensures
            n == self.spec_len(),
    {
        self.counts.len()
    }

    /// Whether `id` names a proposal of this registry.
    pub fn contains(&self, id: ProposalId) -> (r: bool)
        requires
            self.wf(),
        ensures
            r == (id < self.spec_len()),
    {
        (id as usize) < self.counts.len()
    }

    /// The vote count of the proposal with id `i`.
    pub fn count_at(&self, i: usize) -> (c: u32)
        requires
            i < self.spec_len(),
        ensures
            c as int == self.counts()[i as int],
    {
        self.counts[i]
    }

    /// Looks a proposal up by id; fails with `ProposalNotFound` when the id
    /// is outside the initialized range.
    pub fn get(&self, id: ProposalId) -> (r: Result<Proposal, VoteError>)
        requires
            self.wf(),
        ensures
            match r {
                Ok(p) => {
                    &&& id < self.spec_len()
                    &&& p.name@ == self.name_at(id as int)
                    &&& p.vote_count as int == self.counts()[id as int]
                },
                Err(e) => {
                    &&& e == VoteError::ProposalNotFound
                    &&& id >= self.spec_len()
                },
            },
    {
        if (id as usize) < self.counts.len() {
            Ok(Proposal {
                name: self.names[id as usize].clone(),
                vote_count: self.counts[id as usize],
            })
        } else {
            Err(VoteError::ProposalNotFound)
        }
    }

    /// Adds `weight` to the vote count of proposal `id`.
    pub fn increment(&mut self, id: ProposalId, weight: u32)
        requires
            id < old(self).spec_len(),
            old(self).counts()[id as int] + weight <= u32::MAX,
        ensures
            final(self).wf() == old(self).wf(),
            final(self).counts() == old(self).counts().update(
                id as int,
                old(self).counts()[id as int] + weight,
            ),
            forall|i: int|
                0 <= i < final(self).spec_len() ==> final(self).name_at(i) == old(self).name_at(i),
    {
        let c = self.counts[id as usize];
        self.counts.set(id as usize, c + weight);
        proof {
            assert(self.counts() =~= old(self).counts().update(
                id as int,
                old(self).counts()[id as int] + weight,
            ));
        }
    }

    /// Subtracts `weight` from the vote count of proposal `id`. The count
    /// cannot go below zero: callers keep every count equal to the votes
    /// standing on the proposal, so a retraction never exceeds it.
    pub fn decrement(&mut self, id: ProposalId, weight: u32)
        requires
            id < old(self).spec_len(),
            weight <= old(self).counts()[id as int],
        ensures
            final(self).wf() == old(self).wf(),
            final(self).counts() == old(self).counts().update(
                id as int,
                old(self).counts()[id as int] - weight,
            ),
            forall|i: int|
                0 <= i < final(self).spec_len() ==> final(self).name_at(i) == old(self).name_at(i),
    {
        let c = self.counts[id as usize];
        self.counts.set(id as usize, c - weight);
        proof {
            assert(self.counts() =~= old(self).counts().update(
                id as int,
                old(self).counts()[id as int] - weight,
            ));
        }
    }
}

} // verus!
