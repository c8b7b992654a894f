use govote_voting::errors::VoteError;
use govote_voting::session::{Status, VotingSession};

const TITLE: &str = "Test Title";
const DESCRIPTION: &str = "This is test description.";
const PROPOSAL_NAME_1: &str = "This is first test proposal.";
const PROPOSAL_NAME_2: &str = "This is second test proposal.";
const EXPIRY: u64 = 1;

fn new_session() -> VotingSession {
    VotingSession::new(
        TITLE.to_string(),
        DESCRIPTION.to_string(),
        vec![PROPOSAL_NAME_1.to_string(), PROPOSAL_NAME_2.to_string()],
        EXPIRY,
    )
}

#[test]
fn test_init() {
    let session = new_session();
    assert_eq!(session.title(), TITLE);
    assert_eq!(session.description(), DESCRIPTION);
    assert_eq!(session.expiry(), EXPIRY);
    assert_eq!(session.status(), Status::InProcess);
    assert_eq!(session.proposal_count(), 2);
    assert_eq!(session.voter_count(), 0);
    assert!(session.winners().is_empty());
    let first = session.get_proposal(0).unwrap();
    assert_eq!(first.name, PROPOSAL_NAME_1);
    assert_eq!(first.vote_count, 0);
    let second = session.get_proposal(1).unwrap();
    assert_eq!(second.name, PROPOSAL_NAME_2);
    assert_eq!(second.vote_count, 0);
}

#[test]
fn test_contract_vote() {
    let mut session = new_session();
    let account1: u64 = 1;

    assert_eq!(session.vote(account1, 1), Ok(()));

    let record = session.get_voter(account1).unwrap();
    assert!(record.voted);
    assert_eq!(record.weight, 1);
    assert_eq!(record.vote, Some(1));
    assert_eq!(session.get_proposal(1).unwrap().vote_count, 1);
}

#[test]
fn test_contract_vote_to_wrong_number() {
    let mut session = new_session();
    let account1: u64 = 1;

    assert_eq!(session.vote(account1, 2), Err(VoteError::ProposalNotFound));

    // the failed vote left the session untouched
    assert_eq!(session.status(), Status::InProcess);
    assert_eq!(session.voter_count(), 0);
    assert!(session.get_voter(account1).is_none());
    assert_eq!(session.get_proposal(0).unwrap().vote_count, 0);
    assert_eq!(session.get_proposal(1).unwrap().vote_count, 0);
}

#[test]
fn test_contract_vote_selection_change() {
    let mut session = new_session();
    let account1: u64 = 1;

    assert_eq!(session.vote(account1, 0), Ok(()));
    assert_eq!(session.get_proposal(0).unwrap().vote_count, 1);
    assert_eq!(session.get_proposal(1).unwrap().vote_count, 0);

    assert_eq!(session.vote(account1, 1), Ok(()));
    assert!(session.get_voter(account1).unwrap().voted);
    assert_eq!(session.get_proposal(0).unwrap().vote_count, 0);
    assert_eq!(session.get_proposal(1).unwrap().vote_count, 1);
}

#[test]
fn test_contract_vote_same_selection() {
    let mut session = new_session();
    let account1: u64 = 1;

    assert_eq!(session.vote(account1, 1), Ok(()));
    assert_eq!(session.vote(account1, 1), Ok(()));

    assert!(session.get_voter(account1).unwrap().voted);
    assert_eq!(session.get_proposal(0).unwrap().vote_count, 0);
    assert_eq!(session.get_proposal(1).unwrap().vote_count, 1);
    assert_eq!(session.voter_count(), 1);
}

#[test]
fn test_contract_winning_proposal_no_voters() {
    let mut session = new_session();

    assert_eq!(session.status(), Status::InProcess);
    assert_eq!(session.tally(), Ok(()));
    assert_eq!(session.status(), Status::Finished);
    // an all-zero tie: every proposal wins, in ascending id order
    assert_eq!(session.winners(), &vec![0, 1]);
}

#[test]
fn test_contract_winning_proposal_one_winning_proposal() {
    let mut session = new_session();
    let account1: u64 = 1;

    assert_eq!(session.vote(account1, 0), Ok(()));
    assert_eq!(session.status(), Status::InProcess);
    assert_eq!(session.get_proposal(0).unwrap().vote_count, 1);

    assert_eq!(session.tally(), Ok(()));
    assert_eq!(session.status(), Status::Finished);
    assert_eq!(session.winners(), &vec![0]);
}

#[test]
fn test_contract_winning_proposal_multi_winning_proposal() {
    let mut session = new_session();
    let account1: u64 = 1;
    let account2: u64 = 2;

    assert_eq!(session.vote(account1, 0), Ok(()));
    assert_eq!(session.vote(account2, 1), Ok(()));
    assert_eq!(session.get_proposal(0).unwrap().vote_count, 1);
    assert_eq!(session.get_proposal(1).unwrap().vote_count, 1);

    assert_eq!(session.tally(), Ok(()));
    assert_eq!(session.status(), Status::Finished);
    // a tie at one vote each: both proposals win, in ascending id order
    assert_eq!(session.winners(), &vec![0, 1]);
}

#[test]
fn test_cancel_vote() {
    let mut session = new_session();
    let account1: u64 = 1;

    assert_eq!(session.vote(account1, 1), Ok(()));
    assert!(session.get_voter(account1).unwrap().voted);
    assert_eq!(session.get_proposal(1).unwrap().vote_count, 1);

    assert_eq!(session.cancel_vote(account1), Ok(()));
    let record = session.get_voter(account1).unwrap();
    assert!(!record.voted);
    assert_eq!(record.vote, None);
    assert_eq!(session.get_proposal(1).unwrap().vote_count, 0);
}
