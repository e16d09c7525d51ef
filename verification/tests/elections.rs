use gov_micro::errors::GovError;
use gov_micro::instructions::cast_vote;
use gov_micro::instructions::close_election;
use gov_micro::instructions::create_election;
use gov_micro::instructions::register_voter;
use gov_micro::pubkey::Pubkey;
use gov_micro::state::election::Election;
use gov_micro::state::election::ElectionStatus;
use gov_micro::state::vote::NullifierSet;
use gov_micro::state::vote::VoteNullifier;
use gov_micro::state::voter::VoterRegistration;
use gov_micro::utils::merkle::create_voter_leaf;

fn key(b: u8) -> Pubkey {
    Pubkey::new([b; 32])
}

fn names(list: &[&str]) -> Vec<String> {
    list.iter().map(|s| s.to_string()).collect()
}

fn fresh_ledger() -> NullifierSet {
    NullifierSet { election: Pubkey::default(), used_nullifiers: Vec::new(), bump: 0 }
}

fn make_election(start: i64, end: i64, now: i64) -> Election {
    create_election::handler(key(1), names(&["Yes", "No"]), start, end, false, None, 0, now)
        .unwrap()
}

#[test]
fn create_election_validates_inputs() {
    let authority = key(1);
    assert_eq!(
        create_election::handler(authority, names(&[]), 100, 200, false, None, 0, 0).unwrap_err(),
        GovError::TooManyCandidates
    );
    let eleven: Vec<String> = (0..11).map(|i| format!("c{}", i)).collect();
    assert_eq!(
        create_election::handler(authority, eleven, 100, 200, false, None, 0, 0).unwrap_err(),
        GovError::TooManyCandidates
    );
    let long_name = "x".repeat(51);
    assert_eq!(
        create_election::handler(authority, vec![long_name], 100, 200, false, None, 0, 0)
            .unwrap_err(),
        GovError::CandidateNameTooLong
    );
    assert_eq!(
        create_election::handler(authority, names(&["A"]), 200, 100, false, None, 0, 0)
            .unwrap_err(),
        GovError::InvalidTimeRange
    );
    assert_eq!(
        create_election::handler(authority, names(&["A"]), 100, 200, false, None, 0, 150)
            .unwrap_err(),
        GovError::StartTimeInPast
    );

    // A 50-character name is still accepted.
    let edge_name = "y".repeat(50);
    let e = create_election::handler(authority, vec![edge_name], 100, 200, false, None, 7, 0)
        .unwrap();
    assert_eq!(e.vote_counts, vec![0]);
    assert_eq!(e.total_votes, 0);
    assert_eq!(e.total_registered, 0);
    assert_eq!(e.status, ElectionStatus::Pending);
    assert_eq!(e.bump, 7);
    assert!(!e.privacy_enabled);
    assert!(e.on_success_hook.is_none() && e.on_failure_hook.is_none());
}

#[test]
fn create_election_status_tracks_window() {
    let pending = make_election(100, 200, 50);
    assert_eq!(pending.status, ElectionStatus::Pending);
    let active = make_election(100, 200, 100);
    assert_eq!(active.status, ElectionStatus::Active);
}

#[test]
fn end_to_end_single_election() {
    // Create with candidates ["Yes","No"], start=100, end=200.
    let election_key = key(9);
    let voter = key(10);
    let attestation = key(11);
    let mut election = make_election(100, 200, 50);
    let mut ledger = fresh_ledger();

    // Register the voter in direct mode.
    let reg = register_voter::handler(&mut election, election_key, voter, attestation, true, 50)
        .unwrap()
        .unwrap();
    assert_eq!(reg.wallet, voter);
    assert_eq!(reg.election, election_key);
    assert_eq!(election.total_registered, 1);

    // At clock=50 the vote fails: not started.
    let r = cast_vote::handler(
        &mut election,
        &mut ledger,
        election_key,
        voter,
        0,
        &vec![],
        None,
        None,
        None,
        Some(reg),
        50,
    );
    assert_eq!(r.unwrap_err(), GovError::ElectionNotStarted);
    assert_eq!(election.total_votes, 0);

    // At clock=150 the first vote for choice 0 succeeds.
    let r = cast_vote::handler(
        &mut election,
        &mut ledger,
        election_key,
        voter,
        0,
        &vec![],
        None,
        None,
        None,
        Some(reg),
        150,
    );
    assert!(r.is_ok());
    assert_eq!(election.total_votes, 1);
    assert_eq!(election.vote_counts, vec![1, 0]);
    assert_eq!(election.status, ElectionStatus::Active);
    assert_eq!(ledger.used_nullifiers.len(), 1);
    assert_eq!(ledger.election, election_key);

    // Replaying the same (voter, election) nullifier at clock=160 fails.
    let r = cast_vote::handler(
        &mut election,
        &mut ledger,
        election_key,
        voter,
        1,
        &vec![],
        None,
        None,
        None,
        Some(reg),
        160,
    );
    assert_eq!(r.unwrap_err(), GovError::AlreadyVoted);
    assert_eq!(election.total_votes, 1);
    assert_eq!(election.vote_counts, vec![1, 0]);

    // At clock=250 a new voter's vote fails: ended.
    let voter2 = key(12);
    let reg2 = VoterRegistration {
        wallet: voter2,
        attestation,
        election: election_key,
        registered_at: 50,
    };
    let r = cast_vote::handler(
        &mut election,
        &mut ledger,
        election_key,
        voter2,
        0,
        &vec![],
        None,
        None,
        None,
        Some(reg2),
        250,
    );
    assert_eq!(r.unwrap_err(), GovError::ElectionEnded);
    assert_eq!(election.total_votes, 1);
}

#[test]
fn cast_vote_rejects_bad_choice_and_missing_registration() {
    let election_key = key(9);
    let voter = key(10);
    let mut election = make_election(100, 200, 50);
    let mut ledger = fresh_ledger();
    let reg = VoterRegistration {
        wallet: voter,
        attestation: key(11),
        election: election_key,
        registered_at: 50,
    };

    // Out-of-range choice.
    let r = cast_vote::handler(
        &mut election,
        &mut ledger,
        election_key,
        voter,
        2,
        &vec![],
        None,
        None,
        None,
        Some(reg),
        150,
    );
    assert_eq!(r.unwrap_err(), GovError::InvalidChoice);

    // No registration record in direct mode.
    let r = cast_vote::handler(
        &mut election,
        &mut ledger,
        election_key,
        voter,
        0,
        &vec![],
        None,
        None,
        None,
        None,
        150,
    );
    assert_eq!(r.unwrap_err(), GovError::NotRegistered);

    // A record for someone else does not count.
    let stranger_reg = VoterRegistration {
        wallet: key(33),
        attestation: key(11),
        election: election_key,
        registered_at: 50,
    };
    let r = cast_vote::handler(
        &mut election,
        &mut ledger,
        election_key,
        voter,
        0,
        &vec![],
        None,
        None,
        None,
        Some(stranger_reg),
        150,
    );
    assert_eq!(r.unwrap_err(), GovError::NotRegistered);
    assert_eq!(election.total_votes, 0);
}

#[test]
fn compressed_mode_registration_and_vote() {
    let election_key = key(9);
    let voter = key(10);
    let attestation = key(11);
    let mut election =
        create_election::handler(key(1), names(&["Yes", "No"]), 100, 200, true, Some(key(40)), 0, 50)
            .unwrap();
    assert_eq!(election.merkle_tree, key(40));
    let mut ledger = fresh_ledger();

    // Registration commits the leaf as the tracked root.
    let out = register_voter::handler(&mut election, election_key, voter, attestation, false, 120)
        .unwrap();
    assert!(out.is_none());
    assert_eq!(election.total_registered, 1);
    assert_eq!(election.status, ElectionStatus::Active);

    // Missing proof material fails.
    let r = cast_vote::handler(
        &mut election,
        &mut ledger,
        election_key,
        voter,
        0,
        &vec![],
        None,
        None,
        None,
        None,
        150,
    );
    assert_eq!(r.unwrap_err(), GovError::InvalidMerkleProof);

    // With the root tracking exactly this voter's leaf, the empty proof at
    // index 0 verifies and the vote counts.
    let r = cast_vote::handler(
        &mut election,
        &mut ledger,
        election_key,
        voter,
        0,
        &vec![],
        Some(0),
        Some(120),
        Some(attestation),
        None,
        150,
    );
    assert!(r.is_ok());
    assert_eq!(election.vote_counts, vec![1, 0]);

    // A wrong attestation reconstructs a different leaf and fails.
    let mut ledger2 = fresh_ledger();
    let r = cast_vote::handler(
        &mut election,
        &mut ledger2,
        election_key,
        key(13),
        1,
        &vec![],
        Some(0),
        Some(120),
        Some(key(44)),
        None,
        150,
    );
    assert_eq!(r.unwrap_err(), GovError::InvalidMerkleProof);
}

#[test]
fn overflow_guard_leaves_counter_unchanged() {
    // A counter already at the unsigned 64-bit maximum fails with
    // ArithmeticOverflow and stays exactly as it was.
    let election_key = key(9);
    let voter = key(10);
    let mut election = make_election(100, 200, 50);
    election.vote_counts = vec![u64::MAX, 0];
    election.total_votes = u64::MAX;
    let mut ledger = fresh_ledger();
    let reg = VoterRegistration {
        wallet: voter,
        attestation: key(11),
        election: election_key,
        registered_at: 50,
    };
    let r = cast_vote::handler(
        &mut election,
        &mut ledger,
        election_key,
        voter,
        0,
        &vec![],
        None,
        None,
        None,
        Some(reg),
        150,
    );
    assert_eq!(r.unwrap_err(), GovError::ArithmeticOverflow);
    assert_eq!(election.vote_counts, vec![u64::MAX, 0]);
    assert_eq!(election.total_votes, u64::MAX);
    assert_eq!(ledger.used_nullifiers.len(), 0);
}

#[test]
fn full_ledger_rejects_votes() {
    let election_key = key(9);
    let voter = key(10);
    let mut election = make_election(100, 200, 50);
    let mut ledger = fresh_ledger();
    ledger.used_nullifiers = vec![[0u8; 32]; 300000];
    let reg = VoterRegistration {
        wallet: voter,
        attestation: key(11),
        election: election_key,
        registered_at: 50,
    };
    let r = cast_vote::handler(
        &mut election,
        &mut ledger,
        election_key,
        voter,
        0,
        &vec![],
        None,
        None,
        None,
        Some(reg),
        150,
    );
    assert_eq!(r.unwrap_err(), GovError::NullifierSetFull);
    assert_eq!(ledger.used_nullifiers.len(), 300000);
    assert_eq!(election.total_votes, 0);
}

#[test]
fn nullifier_matches_sha256_of_layout() {
    // The anti-replay token must be the SHA-256 digest of
    // voter || election || nonce in little-endian.
    let voter = key(50);
    let election = key(51);
    let n = VoteNullifier::new(&voter, &election, 0);
    let mut bytes: Vec<u8> = Vec::new();
    bytes.extend_from_slice(&voter.bytes);
    bytes.extend_from_slice(&election.bytes);
    bytes.extend_from_slice(&0u64.to_le_bytes());
    let expected = solana_program::hash::hash(&bytes).to_bytes();
    assert_eq!(n.nullifier_hash, expected);
    // A different nonce yields a different token.
    let n1 = VoteNullifier::new(&voter, &election, 1);
    assert_ne!(n.nullifier_hash, n1.nullifier_hash);
}

#[test]
fn close_election_is_authority_only_and_final() {
    let authority = key(1);
    let mut election = make_election(100, 200, 50);

    assert_eq!(
        close_election::handler(&mut election, &key(2)).unwrap_err(),
        GovError::Unauthorized
    );
    assert_eq!(election.status, ElectionStatus::Pending);

    assert!(close_election::handler(&mut election, &authority).is_ok());
    assert_eq!(election.status, ElectionStatus::Ended);

    assert_eq!(
        close_election::handler(&mut election, &authority).unwrap_err(),
        GovError::ElectionEnded
    );

    election.status = ElectionStatus::Cancelled;
    assert_eq!(
        close_election::handler(&mut election, &authority).unwrap_err(),
        GovError::ElectionNotActive
    );
}

#[test]
fn register_voter_requires_record_in_direct_mode() {
    let mut election = make_election(100, 200, 50);
    let r = register_voter::handler(&mut election, key(9), key(10), key(11), false, 50);
    assert_eq!(r.unwrap_err(), GovError::InvalidAttestation);
    assert_eq!(election.total_registered, 0);
}

#[test]
fn register_voter_tracks_commitment_root() {
    let election_key = key(9);
    let voter = key(10);
    let attestation = key(11);
    let mut election = make_election(100, 200, 50);
    assert_eq!(election.voter_merkle_root, [0u8; 32]);

    register_voter::handler(&mut election, election_key, voter, attestation, true, 60).unwrap();
    let expected = create_voter_leaf(&voter, &election_key, &attestation);
    assert_eq!(election.voter_merkle_root, expected);
    assert_eq!(election.total_registered, 1);
}

#[test]
fn register_voter_guards_registration_counter() {
    let mut election = make_election(100, 200, 50);
    election.total_registered = u64::MAX;
    let r = register_voter::handler(&mut election, key(9), key(10), key(11), true, 60);
    assert_eq!(r.unwrap_err(), GovError::ArithmeticOverflow);
    assert_eq!(election.total_registered, u64::MAX);
    assert_eq!(election.voter_merkle_root, [0u8; 32]);
}
