use gov_micro::pubkey::Pubkey;
use gov_micro::utils::compression::CompressedVoterData;
use gov_micro::utils::compression::compress_voter_registration;
use gov_micro::utils::compression::decompress_voter_registration;
use gov_micro::utils::compression::get_merkle_tree_size;
use gov_micro::errors::GovError;

fn key(b: u8) -> Pubkey {
    Pubkey::new([b; 32])
}

#[test]
fn test_compression() {
    // TODO: Add merkle proof tests
}

#[test]
fn test_compressed_voter_data() {
    let voter = key(1);
    let election = key(2);
    let attestation = key(3);
    let registered_at = 1234567890i64;

    let data = CompressedVoterData::new(voter, election, attestation, registered_at);

    assert_eq!(data.voter, voter);
    assert_eq!(data.election, election);
    assert_eq!(data.attestation, attestation);
    assert_eq!(data.registered_at, registered_at);
}

#[test]
fn test_leaf_hash_generation() {
    let voter = key(4);
    let election = key(5);
    let attestation = key(6);
    let registered_at = 1234567890i64;

    let data = CompressedVoterData::new(voter, election, attestation, registered_at);
    let hash = data.to_leaf_hash().unwrap();

    // Hash should be 32 bytes
    assert_eq!(hash.len(), 32);

    // Same data should produce same hash
    let data2 = CompressedVoterData::new(voter, election, attestation, registered_at);
    let hash2 = data2.to_leaf_hash().unwrap();
    assert_eq!(hash, hash2);
}

#[test]
fn test_compression_decompression() {
    let voter = key(7);
    let election = key(8);
    let attestation = key(9);
    let registered_at = 1234567890i64;

    let compressed =
        compress_voter_registration(&voter, &attestation, &election, registered_at).unwrap();
    let (v, e, a, r) = decompress_voter_registration(&compressed).unwrap();

    assert_eq!(v, voter);
    assert_eq!(e, election);
    assert_eq!(a, attestation);
    assert_eq!(r, registered_at);
}

#[test]
fn test_merkle_tree_sizing() {
    // Test different voter counts
    let (depth, buffer) = get_merkle_tree_size(100);
    assert!(depth >= 14 && depth <= 30);
    assert_eq!(buffer, 64);

    let (depth, buffer) = get_merkle_tree_size(10000);
    assert!(depth >= 14 && depth <= 30);
    assert_eq!(buffer, 64);

    // Small tree
    let (depth1, _) = get_merkle_tree_size(100);
    // Large tree
    let (depth2, _) = get_merkle_tree_size(100000);
    assert!(depth2 > depth1);
}

#[test]
fn tree_sizing_exact_depths() {
    // Anything at or below 2^14 leaves clamps to the minimum depth.
    assert_eq!(get_merkle_tree_size(0), (14, 64));
    assert_eq!(get_merkle_tree_size(1), (14, 64));
    assert_eq!(get_merkle_tree_size(16384), (14, 64));
    // 2^14 + 1 needs one more level.
    assert_eq!(get_merkle_tree_size(16385), (15, 64));
    // 100000 leaves need ceil(log2(100000)) = 17 levels.
    assert_eq!(get_merkle_tree_size(100000), (17, 64));
    // Huge counts clamp to the maximum depth of 30.
    assert_eq!(get_merkle_tree_size(u32::MAX), (30, 64));
}

#[test]
fn leaf_hash_matches_keccak_of_layout() {
    // The committed leaf must be the Keccak-256 digest of the fixed
    // 104-byte layout: voter, election, attestation, then the timestamp
    // in little-endian.
    let voter = key(10);
    let election = key(11);
    let attestation = key(12);
    let registered_at = -5i64;

    let data = CompressedVoterData::new(voter, election, attestation, registered_at);
    let leaf = data.to_leaf_hash().unwrap();

    let mut bytes: Vec<u8> = Vec::new();
    bytes.extend_from_slice(&voter.bytes);
    bytes.extend_from_slice(&election.bytes);
    bytes.extend_from_slice(&attestation.bytes);
    bytes.extend_from_slice(&registered_at.to_le_bytes());
    assert_eq!(bytes.len(), 104);

    let expected = solana_program::keccak::hash(&bytes).to_bytes();
    assert_eq!(leaf, expected);
}

#[test]
fn decompress_rejects_wrong_length() {
    let short = [0u8; 103];
    match decompress_voter_registration(&short) {
        Err(GovError::InvalidMerkleProof) => {}
        other => panic!("unexpected result: {:?}", other),
    }
    let long = [0u8; 105];
    assert!(decompress_voter_registration(&long).is_err());
}
