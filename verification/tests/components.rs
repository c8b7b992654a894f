use govote_voting::errors::VoteError;
use govote_voting::ledger::VoterLedger;
use govote_voting::registry::ProposalRegistry;

#[test]
fn test_registry_initialize_and_get() {
    let registry = ProposalRegistry::initialize(vec!["A".to_string(), "B".to_string()]);
    assert_eq!(registry.len(), 2);
    let first = registry.get(0).unwrap();
    assert_eq!(first.name, "A");
    assert_eq!(first.vote_count, 0);
    assert_eq!(registry.get(2), Err(VoteError::ProposalNotFound));
}

#[test]
fn test_registry_increment_decrement() {
    let mut registry = ProposalRegistry::initialize(vec!["A".to_string(), "B".to_string()]);
    registry.increment(1, 1);
    registry.increment(1, 1);
    assert_eq!(registry.get(1).unwrap().vote_count, 2);
    registry.decrement(1, 1);
    assert_eq!(registry.get(1).unwrap().vote_count, 1);
    assert_eq!(registry.get(0).unwrap().vote_count, 0);
}

#[test]
fn test_ledger_record_and_clear() {
    let mut ledger = VoterLedger::new();
    assert_eq!(ledger.len(), 0);
    assert!(ledger.get(7).is_none());

    let prev = ledger.record_vote(7, 1, 1);
    assert!(prev.is_none());
    let record = ledger.get(7).unwrap();
    assert!(record.voted);
    assert_eq!(record.weight, 1);
    assert_eq!(record.vote, Some(1));

    let prev = ledger.record_vote(7, 0, 1);
    assert_eq!(prev.unwrap().vote, Some(1));

    let cleared_prev = ledger.clear_vote(7).unwrap();
    assert_eq!(cleared_prev.vote, Some(0));
    let record = ledger.get(7).unwrap();
    assert!(!record.voted);
    assert_eq!(record.vote, None);
    assert_eq!(record.weight, 1);
    assert_eq!(ledger.len(), 1);
}

#[test]
fn test_ledger_clear_unknown_voter() {
    let mut ledger = VoterLedger::new();
    assert_eq!(ledger.clear_vote(7), Err(VoteError::VoterNotFound));
}
