use fhe_ballot::system::VotingSystem;
use fhe_ballot::provider::EncryptedVote;
use fhe_ballot::VoteError;

#[test]
fn encrypt_decrypt_round_trip() {
    let sys = VotingSystem::new();
    let no = sys.encrypt_vote(0);
    let yes = sys.encrypt_vote(1);
    assert_eq!(sys.decrypt_result(&no), 0);
    assert_eq!(sys.decrypt_result(&yes), 1);
}

#[test]
fn serialized_ballot_round_trips() {
    let sys = VotingSystem::new();
    let e = sys.encrypt_vote(1);
    let text = e.serialized().to_string();
    assert!(!text.is_empty());
    let reread = EncryptedVote::from_serialized(text.clone());
    assert_eq!(reread.serialized(), text);
    assert!(!reread.is_session_vote());
    // decrypting parses the serialized text back into a ciphertext first
    assert_eq!(sys.decrypt_result(&e), 1);
}

#[test]
fn tally_scenario_five_votes() {
    let mut sys = VotingSystem::new();
    for bit in [1u64, 1, 1, 0, 0] {
        sys.submit_vote(bit).unwrap();
    }
    let t = sys.tally().unwrap();
    assert_eq!(t.total, 5);
    assert_eq!(t.yes_count, 3);
    assert_eq!(t.no_count, 2);
}

#[test]
fn demo_votes_tally() {
    let mut sys = VotingSystem::new();
    sys.seed_demo_votes();
    assert_eq!(sys.vote_count(), 5);
    let t = sys.tally().unwrap();
    assert_eq!(t.total, 5);
    assert_eq!(t.yes_count, 3);
    assert_eq!(t.no_count, 2);
}

#[test]
fn tally_yes_yes_no_order() {
    let mut sys = VotingSystem::new();
    for bit in [1u64, 1, 0] {
        sys.submit_vote(bit).unwrap();
    }
    let t = sys.tally().unwrap();
    assert_eq!((t.total, t.yes_count, t.no_count), (3, 2, 1));
}

#[test]
fn tally_no_yes_yes_order() {
    // the same multiset of ballots as the test above, folded in another
    // order, decrypts to the same counts
    let mut sys = VotingSystem::new();
    for bit in [0u64, 1, 1] {
        sys.submit_vote(bit).unwrap();
    }
    let t = sys.tally().unwrap();
    assert_eq!((t.total, t.yes_count, t.no_count), (3, 2, 1));
}

#[test]
fn empty_tally_reports_no_votes() {
    let sys = VotingSystem::new();
    assert_eq!(sys.vote_count(), 0);
    assert_eq!(sys.tally(), Err(VoteError::EmptyTallyError));
}

#[test]
fn invalid_vote_rejected() {
    let mut sys = VotingSystem::new();
    assert_eq!(sys.submit_vote(2), Err(VoteError::InvalidVoteInput));
    assert_eq!(sys.vote_count(), 0);
}
