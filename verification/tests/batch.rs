use gov_micro::VoteInput;
use gov_micro::errors::GovError;
use gov_micro::instructions::cast_batch_votes::BatchVoteAccounts;
use gov_micro::instructions::cast_batch_votes::handler as cast_batch_votes;
use gov_micro::instructions::create_election::handler as create_election;
use gov_micro::pubkey::Pubkey;
use gov_micro::state::vote::NullifierSet;
use gov_micro::state::vote::VoteNullifier;
use gov_micro::state::voter::VoterRegistration;

fn key(b: u8) -> Pubkey {
    Pubkey::new([b; 32])
}

fn names(list: &[&str]) -> Vec<String> {
    list.iter().map(|s| s.to_string()).collect()
}

fn entry(election_key: Pubkey, voter: Pubkey) -> BatchVoteAccounts {
    let election =
        create_election(key(1), names(&["A", "B"]), 100, 200, false, None, 0, 50).unwrap();
    BatchVoteAccounts {
        election_key,
        election,
        voter_registration: VoterRegistration {
            wallet: voter,
            attestation: key(3),
            election: election_key,
            registered_at: 50,
        },
        nullifier_set: NullifierSet {
            election: election_key,
            used_nullifiers: Vec::new(),
            bump: 0,
        },
    }
}

fn vote(election_key: Pubkey, voter: Pubkey, choice: u8) -> VoteInput {
    VoteInput {
        election: election_key,
        choice,
        merkle_proof: Vec::new(),
        nullifier: VoteNullifier::new(&voter, &election_key, 0).nullifier_hash,
    }
}

#[test]
fn batch_votes_across_two_elections() {
    let voter = key(10);
    let mut accounts = vec![entry(key(20), voter), entry(key(21), voter)];
    let votes = vec![vote(key(20), voter, 0), vote(key(21), voter, 1)];

    assert!(cast_batch_votes(&mut accounts, &votes, voter, 150).is_ok());
    assert_eq!(accounts[0].election.vote_counts, vec![1, 0]);
    assert_eq!(accounts[0].election.total_votes, 1);
    assert_eq!(accounts[1].election.vote_counts, vec![0, 1]);
    assert_eq!(accounts[1].election.total_votes, 1);
    assert_eq!(accounts[0].nullifier_set.used_nullifiers.len(), 1);
    assert_eq!(accounts[1].nullifier_set.used_nullifiers.len(), 1);
}

#[test]
fn batch_is_atomic_on_failure() {
    // The second item carries an out-of-range choice: the whole batch is
    // discarded and the records touched by item one are exactly as before.
    let voter = key(10);
    let mut accounts = vec![entry(key(20), voter), entry(key(21), voter)];
    let votes = vec![vote(key(20), voter, 0), vote(key(21), voter, 5)];

    let r = cast_batch_votes(&mut accounts, &votes, voter, 150);
    assert_eq!(r.unwrap_err(), GovError::InvalidChoice);
    assert_eq!(accounts[0].election.vote_counts, vec![0, 0]);
    assert_eq!(accounts[0].election.total_votes, 0);
    assert_eq!(accounts[0].nullifier_set.used_nullifiers.len(), 0);
    assert_eq!(accounts[1].election.vote_counts, vec![0, 0]);
    assert_eq!(accounts[1].nullifier_set.used_nullifiers.len(), 0);
}

#[test]
fn batch_rejects_empty_and_oversized() {
    let voter = key(10);
    let mut accounts = vec![entry(key(20), voter)];
    let votes: Vec<VoteInput> = Vec::new();
    assert_eq!(
        cast_batch_votes(&mut accounts, &votes, voter, 150).unwrap_err(),
        GovError::InvalidBatchVote
    );

    let votes: Vec<VoteInput> = (0..51).map(|_| vote(key(20), voter, 0)).collect();
    assert_eq!(
        cast_batch_votes(&mut accounts, &votes, voter, 150).unwrap_err(),
        GovError::InvalidBatchVote
    );
}

#[test]
fn batch_rejects_missing_accounts_and_mismatches() {
    let voter = key(10);

    // More votes than account triples.
    let mut accounts = vec![entry(key(20), voter)];
    let votes = vec![vote(key(20), voter, 0), vote(key(21), voter, 0)];
    assert_eq!(
        cast_batch_votes(&mut accounts, &votes, voter, 150).unwrap_err(),
        GovError::InvalidBatchVote
    );
    assert_eq!(accounts[0].election.total_votes, 0);

    // The supplied election record does not match the item's election.
    let mut accounts = vec![entry(key(22), voter)];
    let votes = vec![vote(key(20), voter, 0)];
    assert_eq!(
        cast_batch_votes(&mut accounts, &votes, voter, 150).unwrap_err(),
        GovError::InvalidBatchVote
    );

    // A registration record for someone else.
    let mut accounts = vec![entry(key(20), key(33))];
    let votes = vec![vote(key(20), voter, 0)];
    assert_eq!(
        cast_batch_votes(&mut accounts, &votes, voter, 150).unwrap_err(),
        GovError::NotRegistered
    );
}

#[test]
fn batch_rejects_replayed_nullifier() {
    let voter = key(10);
    let mut accounts = vec![entry(key(20), voter)];
    let nullifier = VoteNullifier::new(&voter, &key(20), 0).nullifier_hash;
    accounts[0].nullifier_set.used_nullifiers.push(nullifier);
    let votes = vec![vote(key(20), voter, 0)];
    assert_eq!(
        cast_batch_votes(&mut accounts, &votes, voter, 150).unwrap_err(),
        GovError::AlreadyVoted
    );
    assert_eq!(accounts[0].election.total_votes, 0);
    assert_eq!(accounts[0].nullifier_set.used_nullifiers.len(), 1);
}

#[test]
fn batch_rejects_replay_within_batch() {
    // Two items consuming the same nullifier in the same election, each
    // paired with its own copy of that election's empty ledger: the batch
    // fails AlreadyVoted and neither copy is touched.
    let voter = key(10);
    let mut accounts = vec![entry(key(20), voter), entry(key(20), voter)];
    let votes = vec![vote(key(20), voter, 0), vote(key(20), voter, 1)];

    let r = cast_batch_votes(&mut accounts, &votes, voter, 150);
    assert_eq!(r.unwrap_err(), GovError::AlreadyVoted);
    assert_eq!(accounts[0].election.vote_counts, vec![0, 0]);
    assert_eq!(accounts[0].election.total_votes, 0);
    assert_eq!(accounts[0].nullifier_set.used_nullifiers.len(), 0);
    assert_eq!(accounts[1].election.vote_counts, vec![0, 0]);
    assert_eq!(accounts[1].nullifier_set.used_nullifiers.len(), 0);
}

#[test]
fn batch_rejects_repeated_election() {
    // Two items naming the same election with different nullifiers would
    // leave two diverged copies of one record; the batch is rejected as
    // malformed and nothing commits.
    let voter = key(10);
    let mut accounts = vec![entry(key(20), voter), entry(key(20), voter)];
    let mut second = vote(key(20), voter, 1);
    second.nullifier = VoteNullifier::new(&voter, &key(20), 1).nullifier_hash;
    let votes = vec![vote(key(20), voter, 0), second];

    let r = cast_batch_votes(&mut accounts, &votes, voter, 150);
    assert_eq!(r.unwrap_err(), GovError::InvalidBatchVote);
    assert_eq!(accounts[0].election.total_votes, 0);
    assert_eq!(accounts[1].election.total_votes, 0);
    assert_eq!(accounts[0].nullifier_set.used_nullifiers.len(), 0);
    assert_eq!(accounts[1].nullifier_set.used_nullifiers.len(), 0);
}

#[test]
fn batch_respects_time_window() {
    let voter = key(10);
    let mut accounts = vec![entry(key(20), voter)];
    let votes = vec![vote(key(20), voter, 0)];
    assert_eq!(
        cast_batch_votes(&mut accounts, &votes, voter, 50).unwrap_err(),
        GovError::ElectionNotStarted
    );
    assert_eq!(
        cast_batch_votes(&mut accounts, &votes, voter, 250).unwrap_err(),
        GovError::ElectionEnded
    );
}
