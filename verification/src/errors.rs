use vstd::prelude::*;

verus! {

/// Why a command against a voting session was rejected.
///
/// A failed command never mutates the session: every precondition is checked
/// before the first write, so the caller may simply resubmit.
#[derive(Clone, Copy, Debug, PartialEq, Eq, Structural)]
pub enum VoteError {
    /// The session has already been tallied; no further command succeeds.
    AlreadyFinished,
    /// The given proposal id names no proposal of this session.
    ProposalNotFound,
    /// The caller has no voter record in this session.
    VoterNotFound,
    /// The caller has a voter record but no standing vote to cancel.
    NotVoted,
}

} // verus!
