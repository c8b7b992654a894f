use vstd::prelude::*;

use crate::errors::VoteError;
use crate::ledger::{VoterId, VoterRecord};
use crate::registry::ProposalId;
use crate::session::{Status, VotingSession};

verus! {

/// The grand total of standing votes: the sum of every proposal's count.
pub open spec fn sum_counts(counts: Seq<int>) -> int
    decreases counts.len(),
{
    if counts.len() == 0 {
        0
    } else {
        sum_counts(counts.drop_last()) + counts.last()
    }
}

/// Updating one entry moves the sum by exactly the difference.
proof fn lemma_sum_update(counts: Seq<int>, i: int, v: int)
    requires
        0 <= i < counts.len(),
    ensures
        sum_counts(counts.update(i, v)) == sum_counts(counts) - counts[i] + v,
    decreases counts.len(),
{
    let upd = counts.update(i, v);
    if i == counts.len() - 1 {
        assert(upd.drop_last() =~= counts.drop_last());
        assert(upd.last() == v);
    } else {
        assert(upd.drop_last() =~= counts.drop_last().update(i, v));
        lemma_sum_update(counts.drop_last(), i, v);
        assert(upd.last() == counts.last());
    }
}

/// Idempotence of re-casting: a voter who casts the same proposal twice in
/// a row leaves the vote-count distribution, the ledger, the status and
/// the winners exactly as after the first cast.
pub proof fn lemma_vote_idempotent(
    pre: VotingSession,
    mid: VotingSession,
    post: VotingSession,
    voter: VoterId,
    proposal_id: ProposalId,
)
    requires
        VotingSession::vote_post(pre, voter, proposal_id, mid, Ok(())),
        VotingSession::vote_post(mid, voter, proposal_id, post, Ok(())),
    ensures
        post.counts() == mid.counts(),
        post.voters() == mid.voters(),
        post.spec_status() == mid.spec_status(),
        post.winners_seq() == mid.winners_seq(),
{
    let cast = VoterRecord { weight: 1, voted: true, vote: Some(proposal_id) };
    assert(mid.voters()[voter] == cast);
    assert(mid.prior_vote(voter) == Some(proposal_id));
    assert(post.counts() =~= mid.counts());
    assert(post.voters() =~= mid.voters());
}

/// Vote-change conservation: switching the vote from proposal `from` to a
/// different proposal `to` moves exactly the voter's weight of 1 — `from`
/// decreases by 1, `to` increases by 1, every other count and the grand
/// total of standing votes stay as they were.
pub proof fn lemma_vote_change_conservation(
    pre: VotingSession,
    post: VotingSession,
    voter: VoterId,
    from: ProposalId,
    to: ProposalId,
)
    requires
        pre.prior_vote(voter) == Some(from),
        from != to,
        (from as nat) < pre.num_proposals(),
        VotingSession::vote_post(pre, voter, to, post, Ok(())),
    ensures
        post.counts()[from as int] == pre.counts()[from as int] - 1,
        post.counts()[to as int] == pre.counts()[to as int] + 1,
        forall|p: int|
            0 <= p < pre.counts().len() && p != from as int && p != to as int ==> post.counts()[p]
                == pre.counts()[p],
        sum_counts(post.counts()) == sum_counts(pre.counts()),
{
    let c0 = pre.counts();
    let retracted = c0.update(from as int, c0[from as int] - 1);
    lemma_sum_update(c0, from as int, c0[from as int] - 1);
    lemma_sum_update(retracted, to as int, retracted[to as int] + 1);
}

/// Finality: once a tally has succeeded, every subsequent vote,
/// cancellation or tally fails with `AlreadyFinished` and leaves the
/// session — the stored winners included — untouched.
pub proof fn lemma_finished_is_terminal(
    s0: VotingSession,
    s1: VotingSession,
    after_vote: VotingSession,
    after_cancel: VotingSession,
    after_tally: VotingSession,
    voter: VoterId,
    proposal_id: ProposalId,
    rv: Result<(), VoteError>,
    rc: Result<(), VoteError>,
    rt: Result<(), VoteError>,
)
    requires
        VotingSession::tally_post(s0, s1, Ok(())),
        VotingSession::vote_post(s1, voter, proposal_id, after_vote, rv),
        VotingSession::cancel_post(s1, voter, after_cancel, rc),
        VotingSession::tally_post(s1, after_tally, rt),
    ensures
        rv == Err::<(), VoteError>(VoteError::AlreadyFinished) && after_vote == s1,
        rc == Err::<(), VoteError>(VoteError::AlreadyFinished) && after_cancel == s1,
        rt == Err::<(), VoteError>(VoteError::AlreadyFinished) && after_tally == s1,
{
    assert(s1.spec_status() == Status::Finished);
}

} // verus!
