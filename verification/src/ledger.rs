use vstd::prelude::*;

use std::collections::HashMap;

use crate::errors::VoteError;
use crate::registry::ProposalId;

verus! {

broadcast use vstd::std_specs::hash::group_hash_axioms;

/// Identity of a voter, resolved by the caller's environment. Any stable
/// identifier works; the ledger only compares identities for equality.
pub type VoterId = u64;

/// The per-voter ledger entry.
///
/// `vote` is `Some(p)` exactly while the voter has a standing vote for
/// proposal `p`; a record whose `voted` flag is false carries no selection.
/// `weight` is the number of votes the ballot contributes, fixed at 1 for
/// every voter who has voted in this version.
#[derive(Clone, Copy, Debug, PartialEq, Eq)]
pub struct VoterRecord {
    pub weight: u32,
    pub voted: bool,
    pub vote: Option<ProposalId>,
}

/// The per-voter ledger of one session. Records are created lazily on a
/// voter's first vote and persist for the session's lifetime: cancelling
/// only resets the record's fields.
pub struct VoterLedger {
    voters: HashMap<VoterId, VoterRecord>,
}

impl View for VoterLedger {
    type V = Map<VoterId, VoterRecord>;

    closed spec fn view(&self) -> Map<VoterId, VoterRecord> {
        self.voters@
    }
}

/// A ledger holds finitely many records: its contents are those of a hash
/// map.
pub proof fn lemma_ledger_finite(ledger: VoterLedger)
    ensures
        ledger@.dom().finite(),
{
}

impl VoterLedger {
    /// An empty ledger.
    pub fn new() -> (r: Self)
        ensures
            r@ == Map::<VoterId, VoterRecord>::empty(),
    {
        VoterLedger { voters: HashMap::new() }
    }

    /// How many voters hold a record, voted or not.
    pub fn len(&self) -> (n: usize)
        ensures
            n == self@.len(),
    {
        self.voters.len()
    }

    /// Looks a voter's record up without creating one.
    pub fn get(&self, voter: VoterId) -> (r: Option<VoterRecord>)
        ensures
            r == if self@.contains_key(voter) {
                Some(self@[voter])
            } else {
                None::<VoterRecord>
            },
    {
        match self.voters.get(&voter) {
            Some(record) => Some(*record),
            None => None,
        }
    }

    /// Records a vote of `weight` for `proposal`, creating the record on a
    /// voter's first vote, and returns the pre-update record so the caller
    /// can retract a prior vote.
    pub fn record_vote(&mut self, voter: VoterId, proposal: ProposalId, weight: u32) -> (prev:
        Option<VoterRecord>)
        ensures
            final(self)@ == old(self)@.insert(
                voter,
                VoterRecord { weight, voted: true, vote: Some(proposal) },
            ),
            prev == if old(self)@.contains_key(voter) {
                Some(old(self)@[voter])
            } else {
                None::<VoterRecord>
            },
            final(self)@.len() <= old(self)@.len() + 1,
    {
        let prev = self.get(voter);
        let record = VoterRecord { weight, voted: true, vote: Some(proposal) };
        self.voters.insert(voter, record);
        proof {
            broadcast use vstd::set::group_set_axioms;

            assert(final(self)@.dom() =~= old(self)@.dom().insert(voter));
        }
        prev
    }

    /// Clears a voter's standing vote: the `voted` flag is dropped and the
    /// selection reset to none, while the record itself and its weight
    /// persist. Returns the pre-update record so the caller can retract the
    /// vote's count; fails with `VoterNotFound` when the voter never held a
    /// record.
    pub fn clear_vote(&mut self, voter: VoterId) -> (r: Result<VoterRecord, VoteError>)
        ensures
            match r {
                Ok(prev) => {
                    &&& old(self)@.contains_key(voter)
                    &&& prev == old(self)@[voter]
                    &&& final(self)@ == old(self)@.insert(
                        voter,
                        VoterRecord { weight: prev.weight, voted: false, vote: None },
                    )
                },
                Err(e) => {
                    &&& e == VoteError::VoterNotFound
                    &&& !old(self)@.contains_key(voter)
                    &&& *final(self) == *old(self)
                },
            },
    {
        match self.get(voter) {
            Some(prev) => {
                let cleared = VoterRecord { weight: prev.weight, voted: false, vote: None };
                self.voters.insert(voter, cleared);
                Ok(prev)
            },
            None => Err(VoteError::VoterNotFound),
        }
    }
}

} // verus!
