use fhe_ballot::provider::EncryptedVote;
use fhe_ballot::store::BallotStore;
use fhe_ballot::system::VotingSystem;
use fhe_ballot::VoteError;

#[test]
fn store_round_trip_preserves_order() {
    let mut store = BallotStore::new();
    store.push(EncryptedVote::from_serialized("alpha".to_string()));
    store.push(EncryptedVote::from_serialized("beta".to_string()));
    let text = store.to_persisted();
    let reloaded = BallotStore::from_persisted(&text).unwrap();
    assert_eq!(reloaded.len(), 2);
    assert_eq!(reloaded.vote_at(0).serialized(), "alpha");
    assert_eq!(reloaded.vote_at(1).serialized(), "beta");
    // persisting what was loaded writes the identical text again
    assert_eq!(reloaded.to_persisted(), text);
}

#[test]
fn malformed_persisted_text_is_rejected() {
    assert!(matches!(
        BallotStore::from_persisted("not json"),
        Err(VoteError::DeserializationError)
    ));
    assert!(matches!(
        BallotStore::from_persisted("[1, 2]"),
        Err(VoteError::DeserializationError)
    ));
    // an empty array is a valid, empty store, not an error
    assert_eq!(BallotStore::from_persisted("[]").unwrap().len(), 0);
}

#[test]
fn load_persist_load_is_identity() {
    let mut sys = VotingSystem::new();
    sys.submit_vote(1).unwrap();
    sys.submit_vote(0).unwrap();
    let saved = sys.save_votes();
    sys.load_votes(&saved).unwrap();
    let saved_again = sys.save_votes();
    assert_eq!(saved, saved_again);
    sys.load_votes(&saved_again).unwrap();
    assert_eq!(sys.vote_count(), 2);
    let first = sys.vote_at(0).serialized().to_string();
    sys.load_votes(&saved).unwrap();
    assert_eq!(sys.vote_at(0).serialized(), first);
}

#[test]
fn corrupt_persisted_text_keeps_store() {
    let mut sys = VotingSystem::new();
    sys.submit_vote(1).unwrap();
    assert_eq!(sys.load_votes("{broken"), Err(VoteError::DeserializationError));
    assert_eq!(sys.vote_count(), 1);
}

#[test]
fn reloaded_ballots_cannot_be_tallied() {
    let mut sys = VotingSystem::new();
    sys.submit_vote(1).unwrap();
    let saved = sys.save_votes();
    sys.load_votes(&saved).unwrap();
    assert_eq!(sys.vote_count(), 1);
    assert_eq!(sys.tally(), Err(VoteError::DecryptionError));
}

#[test]
fn alien_ballot_text_corrupts_tally() {
    let mut sys = VotingSystem::new();
    sys.load_votes("[\"garbage\"]").unwrap();
    assert_eq!(sys.vote_count(), 1);
    assert_eq!(sys.tally(), Err(VoteError::CorruptBallotError));
}
