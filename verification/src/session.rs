use vstd::prelude::*;

use crate::errors::VoteError;
use crate::ledger::{VoterId, VoterLedger, VoterRecord};
use crate::registry::{Proposal, ProposalId, ProposalRegistry};
use crate::tally::{compute_winners, winners_of};

verus! {

broadcast use vstd::set::group_set_axioms;

/// Where a session stands: accepting commands, or tallied and read-only.
/// The transition is monotonic: `InProcess` moves to `Finished` exactly
/// once, and no command succeeds afterwards.
#[derive(Clone, Copy, Debug, PartialEq, Eq, Structural)]
pub enum Status {
    InProcess,
    Finished,
}

/// The voters with a standing vote for proposal `p`.
pub open spec fn voters_for(voters: Map<VoterId, VoterRecord>, p: ProposalId) -> Set<VoterId> {
    voters.dom().filter(|v: VoterId| voters[v].voted && voters[v].vote == Some(p))
}

/// A well-formed ledger entry: a voter who has voted holds a selection
/// inside the proposal range and the fixed weight of 1; one who has not
/// carries no selection.
pub open spec fn record_ok(record: VoterRecord, proposals: nat) -> bool {
    if record.voted {
        &&& record.weight == 1
        &&& match record.vote {
            Some(p) => (p as nat) < proposals,
            None => false,
        }
    } else {
        record.vote is None
    }
}

/// The vote counts after one cast: the prior selection, if any, gives one
/// vote back, and the new selection receives one.
pub open spec fn counts_after_vote(
    counts: Seq<int>,
    prior: Option<ProposalId>,
    proposal: ProposalId,
) -> Seq<int> {
    let retracted = match prior {
        Some(pv) => counts.update(pv as int, counts[pv as int] - 1),
        None => counts,
    };
    retracted.update(proposal as int, retracted[proposal as int] + 1)
}

/// The full mutable state of one voting process: the proposal registry, the
/// per-voter ledger, the session status and, once tallied, the winners.
///
/// Every command runs to completion against one owned session; a failed
/// command returns its error before the first write, so the session is
/// unchanged.
pub struct VotingSession {
    title: String,
    description: String,
    registry: ProposalRegistry,
    ledger: VoterLedger,
    status: Status,
    winners: Vec<ProposalId>,
    expiry: u64,
}

impl VotingSession {
    /// The session title.
    pub closed spec fn spec_title(self) -> Seq<char> {
        self.title@
    }

    /// The session description.
    pub closed spec fn spec_description(self) -> Seq<char> {
        self.description@
    }

    /// The stored expiry timestamp, in milliseconds. It is recorded but not
    /// enforced: votes and the tally are accepted regardless of elapsed
    /// time in this version.
    pub closed spec fn spec_expiry(self) -> u64 {
        self.expiry
    }

    /// The session status.
    pub closed spec fn spec_status(self) -> Status {
        self.status
    }

    /// The winning proposal ids stored by the tally; empty until then.
    pub closed spec fn winners_seq(self) -> Seq<ProposalId> {
        self.winners@
    }

    /// The vote count of each proposal, indexed by proposal id.
    pub closed spec fn counts(self) -> Seq<int> {
        self.registry.counts()
    }

    /// The ledger contents: each known voter's record.
    pub closed spec fn voters(self) -> Map<VoterId, VoterRecord> {
        self.ledger@
    }

    /// How many proposals the session was created with.
    pub open spec fn num_proposals(self) -> nat {
        self.counts().len()
    }

    /// The name of the proposal with id `i`.
    pub closed spec fn proposal_name(self, i: int) -> Seq<char> {
        self.registry.name_at(i)
    }

    /// The proposal a voter currently has a standing vote for, if any.
    pub open spec fn prior_vote(self, voter: VoterId) -> Option<ProposalId> {
        if self.voters().contains_key(voter) && self.voters()[voter].voted {
            self.voters()[voter].vote
        } else {
            None
        }
    }

    /// The session invariant: proposals fit the id range, every ledger
    /// entry is well formed, and each proposal's vote count equals the
    /// number of voters with a standing vote for it (every ballot weighs
    /// 1, so the cast votes and the counts always balance).
    pub closed spec fn wf(self) -> bool {
        &&& self.registry.wf()
        &&& forall|v: VoterId| #[trigger]
            self.ledger@.contains_key(v) ==> record_ok(self.ledger@[v], self.registry.spec_len())
        &&& forall|p: ProposalId|
            (p as nat) < self.registry.spec_len() ==> #[trigger] self.registry.counts()[p as int]
                == voters_for(self.ledger@, p).len()
    }

    /// The books always balance: in a well-formed session, each proposal's
    /// vote count equals the number of voters with a standing vote for it —
    /// every ballot weighs 1, so the counts and the cast votes agree at all
    /// times.
    pub proof fn lemma_counts_balance(self)
        requires
            self.wf(),
        ensures
            forall|p: ProposalId|
                (p as nat) < self.num_proposals() ==> #[trigger] self.counts()[p as int]
                    == voters_for(self.voters(), p).len(),
    {
    }

    /// The parts of a session no command may alter: title, description,
    /// expiry, and the fixed proposal list.
    pub open spec fn same_shape(self, other: Self) -> bool {
        &&& self.spec_title() == other.spec_title()
        &&& self.spec_description() == other.spec_description()
        &&& self.spec_expiry() == other.spec_expiry()
        &&& self.num_proposals() == other.num_proposals()
        &&& forall|i: int|
            0 <= i < self.num_proposals() ==> #[trigger] self.proposal_name(i)
                == other.proposal_name(i)
    }

    /// Creates a session over the given ordered proposal names, with ids
    /// 0 to `proposal_names.len() - 1`, every count at zero, an empty
    /// ledger, and status `InProcess`.
    pub fn new(title: String, description: String, proposal_names: Vec<String>, expiry: u64) -> (r:
        Self)
        requires
            proposal_names@.len() <= 256,
        ensures
            r.wf(),
            r.spec_status() == Status::InProcess,
            r.winners_seq() == Seq::<ProposalId>::empty(),
            r.voters() == Map::<VoterId, VoterRecord>::empty(),
            r.num_proposals() == proposal_names@.len(),
            forall|i: int| 0 <= i < r.num_proposals() ==> r.counts()[i] == 0,
            forall|i: int|
                0 <= i < r.num_proposals() ==> r.proposal_name(i) == proposal_names@[i]@,
            r.spec_title() == title@,
            r.spec_description() == description@,
            r.spec_expiry() == expiry,
    {
        let registry = ProposalRegistry::initialize(proposal_names);
        let ledger = VoterLedger::new();
        let session = VotingSession {
            title,
            description,
            registry,
            ledger,
            status: Status::InProcess,
            winners: Vec::new(),
            expiry,
        };
        proof {
            assert forall|p: ProposalId| (p as nat) < session.registry.spec_len() implies
                session.registry.counts()[p as int] == voters_for(session.ledger@, p).len() by {
                assert(voters_for(session.ledger@, p) =~= Set::<VoterId>::empty());
            }
        }
        session
    }

    /// What [`Self::vote`] does: once the session is finished every vote
    /// fails with `AlreadyFinished`; an id outside the proposal range fails
    /// with `ProposalNotFound`; in both cases the session is unchanged.
    /// Otherwise the vote is accepted: the voter's record now selects the
    /// proposal with weight 1, the prior selection (if any) gives its vote
    /// back, the new selection gains one, and nothing else moves.
    pub open spec fn vote_post(
        pre: Self,
        voter: VoterId,
        proposal_id: ProposalId,
        post: Self,
        r: Result<(), VoteError>,
    ) -> bool {
        if pre.spec_status() == Status::Finished {
            &&& r == Err::<(), VoteError>(VoteError::AlreadyFinished)
            &&& post == pre
        } else if (proposal_id as nat) >= pre.num_proposals() {
            &&& r == Err::<(), VoteError>(VoteError::ProposalNotFound)
            &&& post == pre
        } else {
            &&& r == Ok::<(), VoteError>(())
            &&& post.voters() == pre.voters().insert(
                voter,
                VoterRecord { weight: 1, voted: true, vote: Some(proposal_id) },
            )
            &&& post.counts() == counts_after_vote(
                pre.counts(),
                pre.prior_vote(voter),
                proposal_id,
            )
            &&& post.spec_status() == pre.spec_status()
            &&& post.winners_seq() == pre.winners_seq()
            &&& post.same_shape(pre)
        }
    }

    /// Casts the caller's single vote for `proposal_id`, retracting any
    /// prior selection first, so a voter may change their vote freely until
    /// the tally.
    ///
    /// The bound on the ledger size is a machine limit: counts are 32-bit,
    /// and each of the finitely many voters contributes at most one vote.
    pub fn vote(&mut self, voter: VoterId, proposal_id: ProposalId) -> (r: Result<
        (),
        VoteError,
    >)
        requires
            old(self).wf(),
            old(self).voters().len() < u32::MAX as nat,
        ensures
            final(self).wf(),
            Self::vote_post(*old(self), voter, proposal_id, *final(self), r),
    {
        if self.status == Status::Finished {
            return Err(VoteError::AlreadyFinished);
        }
        if !self.registry.contains(proposal_id) {
            return Err(VoteError::ProposalNotFound);
        }
        proof {
            crate::ledger::lemma_ledger_finite(self.ledger);
        }
        let prior = self.ledger.get(voter);
        match prior {
            Some(record) => {
                if record.voted {
                    proof {
                        let s = voters_for(self.ledger@, record.vote.unwrap());
                        assert(s.subset_of(self.ledger@.dom()));
                        vstd::set_lib::lemma_len_subset(s, self.ledger@.dom());
                        assert(s.contains(voter));
                        vstd::set::axiom_set_contains_len(s, voter);
                    }
                    let prior_choice = record.vote.unwrap();
                    self.registry.decrement(prior_choice, record.weight);
                }
            },
            None => {},
        }
        proof {
            let s = voters_for(old(self).ledger@, proposal_id);
            assert(s.subset_of(old(self).ledger@.dom()));
            vstd::set_lib::lemma_len_subset(s, old(self).ledger@.dom());
        }
        let _prev = self.ledger.record_vote(voter, proposal_id, 1);
        self.registry.increment(proposal_id, 1);
        proof {
            let pre = *old(self);
            let m0 = pre.ledger@;
            let new_record = VoterRecord { weight: 1u32, voted: true, vote: Some(proposal_id) };
            assert forall|p: ProposalId| (p as nat) < self.registry.spec_len() implies
                self.registry.counts()[p as int] == voters_for(self.ledger@, p).len() by {
                lemma_voters_for_insert(m0, voter, new_record, p);
                assert(voters_for(m0, p).contains(voter) <==> (m0.dom().contains(voter)
                    && m0[voter].voted && m0[voter].vote == Some(p)));
            }
        }
        Ok(())
    }

    /// What [`Self::cancel_vote`] does: after the tally
    /// it fails with `AlreadyFinished`; for an unknown identity with
    /// `VoterNotFound`; for a voter without a standing vote with
    /// `NotVoted`; in each case the session is unchanged. Otherwise the
    /// chosen proposal gives the voter's weight back and the record keeps
    /// its weight but loses its selection.
    pub open spec fn cancel_post(
        pre: Self,
        voter: VoterId,
        post: Self,
        r: Result<(), VoteError>,
    ) -> bool {
        if pre.spec_status() == Status::Finished {
            &&& r == Err::<(), VoteError>(VoteError::AlreadyFinished)
            &&& post == pre
        } else if !pre.voters().contains_key(voter) {
            &&& r == Err::<(), VoteError>(VoteError::VoterNotFound)
            &&& post == pre
        } else if !pre.voters()[voter].voted {
            &&& r == Err::<(), VoteError>(VoteError::NotVoted)
            &&& post == pre
        } else {
            let record = pre.voters()[voter];
            &&& r == Ok::<(), VoteError>(())
            &&& post.voters() == pre.voters().insert(
                voter,
                VoterRecord { weight: record.weight, voted: false, vote: None },
            )
            &&& post.counts() == match record.vote {
                Some(pv) => pre.counts().update(
                    pv as int,
                    pre.counts()[pv as int] - record.weight,
                ),
                None => pre.counts(),
            }
            &&& post.spec_status() == pre.spec_status()
            &&& post.winners_seq() == pre.winners_seq()
            &&& post.same_shape(pre)
        }
    }

    /// Cancels the caller's standing vote, giving the chosen proposal its
    /// weight back. The record persists with its selection cleared.
    pub fn cancel_vote(&mut self, voter: VoterId) -> (r: Result<(), VoteError>)
        requires
            old(self).wf(),
        ensures
            final(self).wf(),
            Self::cancel_post(*old(self), voter, *final(self), r),
    {
        if self.status == Status::Finished {
            return Err(VoteError::AlreadyFinished);
        }
        proof {
            crate::ledger::lemma_ledger_finite(self.ledger);
        }
        match self.ledger.get(voter) {
            None => Err(VoteError::VoterNotFound),
            Some(record) => {
                if !record.voted {
                    return Err(VoteError::NotVoted);
                }
                proof {
                    let s = voters_for(self.ledger@, record.vote.unwrap());
                    assert(s.subset_of(self.ledger@.dom()));
                    vstd::set_lib::lemma_len_subset(s, self.ledger@.dom());
                    assert(s.contains(voter));
                    vstd::set::axiom_set_contains_len(s, voter);
                }
                let prior_choice = record.vote.unwrap();
                self.registry.decrement(prior_choice, record.weight);
                let _prev = self.ledger.clear_vote(voter);
                proof {
                    let pre = *old(self);
                    let m0 = pre.ledger@;
                    let cleared = VoterRecord { weight: record.weight, voted: false, vote: None };
                    assert forall|p: ProposalId| (p as nat) < self.registry.spec_len() implies
                        self.registry.counts()[p as int] == voters_for(self.ledger@, p).len() by {
                        lemma_voters_for_insert(m0, voter, cleared, p);
                        assert(voters_for(m0, p).contains(voter) <==> (m0.dom().contains(voter)
                            && m0[voter].voted && m0[voter].vote == Some(p)));
                    }
                }
                Ok(())
            },
        }
    }

    /// What [`Self::tally`] does: a second tally fails with
    /// `AlreadyFinished` and changes nothing; the first tally stores the
    /// winners computed from the current counts, flips the status to
    /// `Finished`, and touches nothing else.
    pub open spec fn tally_post(pre: Self, post: Self, r: Result<(), VoteError>) -> bool {
        if pre.spec_status() == Status::Finished {
            &&& r == Err::<(), VoteError>(VoteError::AlreadyFinished)
            &&& post == pre
        } else {
            &&& r == Ok::<(), VoteError>(())
            &&& post.spec_status() == Status::Finished
            &&& post.winners_seq() == winners_of(pre.counts())
            &&& post.voters() == pre.voters()
            &&& post.counts() == pre.counts()
            &&& post.same_shape(pre)
        }
    }

    /// Finalizes the session: computes the winning proposal ids from the
    /// current counts and closes the session. Any caller may finalize at
    /// any time — before the expiry and even before any vote — by the
    /// deliberate, documented relaxation of this version.
    pub fn tally(&mut self) -> (r: Result<(), VoteError>)
        requires
            old(self).wf(),
        ensures
            final(self).wf(),
            Self::tally_post(*old(self), *final(self), r),
    {
        if self.status == Status::Finished {
            return Err(VoteError::AlreadyFinished);
        }
        let winning = compute_winners(&self.registry);
        self.winners = winning;
        self.status = Status::Finished;
        Ok(())
    }

    /// The session status.
    pub fn status(&self) -> (s: Status)
        ensures
            s == self.spec_status(),
    {
        self.status
    }

    /// The winning proposal ids stored by the tally; empty until then.
    pub fn winners(&self) -> (w: &Vec<ProposalId>)
        ensures
            w@ == self.winners_seq(),
    {
        &self.winners
    }

    /// How many proposals the session was created with.
    pub fn proposal_count(&self) -> (n: usize)
        ensures
            n == self.num_proposals(),
    {
        self.registry.len()
    }

    /// How many voters hold a ledger record, voted or not.
    pub fn voter_count(&self) -> (n: usize)
        ensures
            n == self.voters().len(),
    {
        self.ledger.len()
    }

    /// Looks a proposal up by id; fails with `ProposalNotFound` when the
    /// id is outside the initialized range.
    pub fn get_proposal(&self, id: ProposalId) -> (r: Result<Proposal, VoteError>)
        requires
            self.wf(),
        ensures
            match r {
                Ok(p) => {
                    &&& (id as nat) < self.num_proposals()
                    &&& p.name@ == self.proposal_name(id as int)
                    &&& p.vote_count as int == self.counts()[id as int]
                },
                Err(e) => {
                    &&& e == VoteError::ProposalNotFound
                    &&& (id as nat) >= self.num_proposals()
                },
            },
    {
        self.registry.get(id)
    }

    /// Looks a voter's record up without creating one.
    pub fn get_voter(&self, voter: VoterId) -> (r: Option<VoterRecord>)
        ensures
            r == if self.voters().contains_key(voter) {
                Some(self.voters()[voter])
            } else {
                None::<VoterRecord>
            },
    {
        self.ledger.get(voter)
    }

    /// The session title.
    pub fn title(&self) -> (t: &String)
        ensures
            t@ == self.spec_title(),
    {
        &self.title
    }

    /// The session description.
    pub fn description(&self) -> (d: &String)
        ensures
            d@ == self.spec_description(),
    {
        &self.description
    }

    /// The stored expiry timestamp, in milliseconds (recorded, not
    /// enforced).
    pub fn expiry(&self) -> (e: u64)
        ensures
            e == self.spec_expiry(),
    {
        self.expiry
    }
}

/// Overwriting one voter's record moves that voter in or out of each
/// proposal's supporter set and leaves every other voter alone.
proof fn lemma_voters_for_insert(
    m: Map<VoterId, VoterRecord>,
    voter: VoterId,
    new_record: VoterRecord,
    p: ProposalId,
)
    requires
        m.dom().finite(),
    ensures
        voters_for(m.insert(voter, new_record), p).finite(),
        voters_for(m.insert(voter, new_record), p).len() == voters_for(m, p).len() + (
        if new_record.voted && new_record.vote == Some(p) {
            if voters_for(m, p).contains(voter) {
                0int
            } else {
                1int
            }
        } else {
            if voters_for(m, p).contains(voter) {
                -1int
            } else {
                0int
            }
        }),
{
    let s = voters_for(m, p);
    let s2 = voters_for(m.insert(voter, new_record), p);
    assert(s.subset_of(m.dom()));
    vstd::set_lib::lemma_len_subset(s, m.dom());
    if new_record.voted && new_record.vote == Some(p) {
        assert(s2 =~= s.insert(voter));
        vstd::set::axiom_set_insert_len(s, voter);
    } else {
        assert(s2 =~= s.remove(voter));
        vstd::set::axiom_set_remove_len(s, voter);
    }
}

} // verus!
