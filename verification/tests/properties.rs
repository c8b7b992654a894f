use govote_voting::errors::VoteError;
use govote_voting::session::{Status, VotingSession};

fn session_with(names: &[&str]) -> VotingSession {
    VotingSession::new(
        "Title".to_string(),
        "Description".to_string(),
        names.iter().map(|n| n.to_string()).collect(),
        0,
    )
}

#[test]
fn test_vote_change_moves_exactly_one_vote() {
    let mut session = session_with(&["A", "B", "C"]);
    let v1: u64 = 10;
    let v2: u64 = 20;

    assert_eq!(session.vote(v2, 0), Ok(()));
    assert_eq!(session.vote(v1, 0), Ok(()));
    assert_eq!(session.get_proposal(0).unwrap().vote_count, 2);

    // v1 switches from A to B: A loses one, B gains one, C and the total stay
    assert_eq!(session.vote(v1, 1), Ok(()));
    assert_eq!(session.get_proposal(0).unwrap().vote_count, 1);
    assert_eq!(session.get_proposal(1).unwrap().vote_count, 1);
    assert_eq!(session.get_proposal(2).unwrap().vote_count, 0);
}

#[test]
fn test_vote_then_switch_then_tally() {
    // voter casts proposal 1, then switches to proposal 0
    let mut session = session_with(&["A", "B"]);
    let v1: u64 = 1;

    assert_eq!(session.vote(v1, 1), Ok(()));
    assert_eq!(session.vote(v1, 0), Ok(()));
    assert_eq!(session.get_proposal(0).unwrap().vote_count, 1);
    assert_eq!(session.get_proposal(1).unwrap().vote_count, 0);

    assert_eq!(session.tally(), Ok(()));
    assert_eq!(session.winners(), &vec![0]);
}

#[test]
fn test_vote_then_cancel_restores_counts() {
    let mut session = session_with(&["A", "B"]);
    let v1: u64 = 1;

    assert_eq!(session.vote(v1, 1), Ok(()));
    assert_eq!(session.cancel_vote(v1), Ok(()));
    assert_eq!(session.get_proposal(1).unwrap().vote_count, 0);
    assert!(!session.get_voter(v1).unwrap().voted);
}

#[test]
fn test_cancel_vote_unknown_voter() {
    let mut session = session_with(&["A", "B"]);
    assert_eq!(session.cancel_vote(99), Err(VoteError::VoterNotFound));
    assert_eq!(session.voter_count(), 0);
}

#[test]
fn test_cancel_vote_twice_not_voted() {
    let mut session = session_with(&["A", "B"]);
    let v1: u64 = 1;

    assert_eq!(session.vote(v1, 0), Ok(()));
    assert_eq!(session.cancel_vote(v1), Ok(()));
    // the record persists without a standing vote
    assert_eq!(session.cancel_vote(v1), Err(VoteError::NotVoted));
    assert_eq!(session.get_proposal(0).unwrap().vote_count, 0);
}

#[test]
fn test_after_tally_everything_fails() {
    let mut session = session_with(&["A", "B"]);
    let v1: u64 = 1;

    assert_eq!(session.vote(v1, 0), Ok(()));
    assert_eq!(session.tally(), Ok(()));
    let winners_before = session.winners().clone();

    assert_eq!(session.vote(v1, 1), Err(VoteError::AlreadyFinished));
    assert_eq!(session.vote(2, 0), Err(VoteError::AlreadyFinished));
    // even an out-of-range id fails with AlreadyFinished: the status is
    // checked first
    assert_eq!(session.vote(3, 200), Err(VoteError::AlreadyFinished));
    assert_eq!(session.cancel_vote(v1), Err(VoteError::AlreadyFinished));
    assert_eq!(session.tally(), Err(VoteError::AlreadyFinished));

    assert_eq!(session.status(), Status::Finished);
    assert_eq!(session.winners(), &winners_before);
    assert_eq!(session.get_proposal(0).unwrap().vote_count, 1);
    assert_eq!(session.get_proposal(1).unwrap().vote_count, 0);
    assert!(session.get_voter(v1).unwrap().voted);
}

#[test]
fn test_no_proposals_tally_is_empty() {
    let mut session = session_with(&[]);
    assert_eq!(session.vote(1, 0), Err(VoteError::ProposalNotFound));
    assert_eq!(session.tally(), Ok(()));
    assert!(session.winners().is_empty());
}

#[test]
fn test_largest_session() {
    let names: Vec<String> = (0..256).map(|i| format!("proposal {}", i)).collect();
    let mut session = VotingSession::new("big".to_string(), "".to_string(), names, 0);
    assert_eq!(session.proposal_count(), 256);
    assert_eq!(session.vote(7, 255), Ok(()));
    assert_eq!(session.get_proposal(255).unwrap().vote_count, 1);
    assert_eq!(session.tally(), Ok(()));
    assert_eq!(session.winners(), &vec![255]);
}

#[test]
fn test_get_proposal_out_of_range() {
    let session = session_with(&["A", "B"]);
    assert_eq!(session.get_proposal(2), Err(VoteError::ProposalNotFound));
    assert_eq!(session.get_proposal(255), Err(VoteError::ProposalNotFound));
}

#[test]
fn test_tie_after_cancel_all_zero() {
    // votes cast and all cancelled: the tally reports an all-zero tie
    let mut session = session_with(&["A", "B", "C"]);
    assert_eq!(session.vote(1, 2), Ok(()));
    assert_eq!(session.cancel_vote(1), Ok(()));
    assert_eq!(session.tally(), Ok(()));
    assert_eq!(session.winners(), &vec![0, 1, 2]);
}
