//! The compressed voter-registration commitment: a fixed-layout encoding
//! of one registration, hashed into the 32-byte leaf that the external
//! tree store commits to.

use vstd::prelude::*;
use crate::errors::GovError;
use crate::pubkey::Pubkey;
use crate::utils::bytes32::push_bytes32;
use crate::utils::bytes32::read_bytes32;
use crate::utils::hashing::keccak256;
use crate::utils::hashing::keccak256_of;
use vstd::bytes::u64_to_le_bytes;
use vstd::bytes::u64_from_le_bytes;
use vstd::bytes::spec_u64_to_le_bytes;
use vstd::bytes::spec_u64_from_le_bytes;
use vstd::bytes::lemma_auto_spec_u64_to_from_le_bytes;

verus! {

/// The little-endian encoding of a timestamp, by its two's-complement bits.
pub open spec fn spec_i64_to_le_bytes(x: i64) -> Seq<u8> {
    spec_u64_to_le_bytes(x as u64)
}

/// Length in bytes of one serialized registration:
/// 32 (voter) + 32 (election) + 32 (attestation) + 8 (registered_at)
pub const COMPRESSED_VOTER_DATA_LEN: usize = 104;

/// Compressed voter registration data: what gets hashed and committed to
/// the external merkle tree store.
#[derive(Clone, Copy, Debug)]
pub struct CompressedVoterData {
    pub voter: Pubkey,
    pub election: Pubkey,
    pub attestation: Pubkey,
    pub registered_at: i64,
}

impl CompressedVoterData {
    /// The fixed-layout serialization: the three keys in order, then the
    /// timestamp in little-endian.
    pub open spec fn spec_serialized(self) -> Seq<u8> {
        self.voter@ + self.election@ + self.attestation@ + spec_i64_to_le_bytes(
            self.registered_at,
        )
    }

    /// The leaf hash committing this registration.
    pub open spec fn leaf_hash_of(self) -> Seq<u8> {
        keccak256_of(self.spec_serialized())
    }

    /// Create a new compressed voter data structure.
    pub fn new(voter: Pubkey, election: Pubkey, attestation: Pubkey, registered_at: i64) -> (d:
        CompressedVoterData)
        ensures
            d == (CompressedVoterData { voter, election, attestation, registered_at }),
    {
        CompressedVoterData { voter, election, attestation, registered_at }
    }

    /// Serialize this registration into its fixed layout.
    pub fn to_bytes(&self) -> (data: Vec<u8>)
        ensures
            data@ == self.spec_serialized(),
            data@.len() == COMPRESSED_VOTER_DATA_LEN,
    {
        let mut data: Vec<u8> = Vec::new();
        push_bytes32(&mut data, &self.voter.bytes);
        push_bytes32(&mut data, &self.election.bytes);
        push_bytes32(&mut data, &self.attestation.bytes);
        let mut tail = u64_to_le_bytes(self.registered_at as u64);
        data.append(&mut tail);
        proof {
            assert(data@ =~= self.spec_serialized());
        }
        data
    }

    /// Generate the leaf hash for this voter data.
    pub fn to_leaf_hash(&self) -> (res: Result<[u8; 32], GovError>)
        ensures
            res matches Ok(h) && h@ == self.leaf_hash_of(),
    {
        let data = self.to_bytes();
        Ok(keccak256(&data))
    }
}

/// Compress voter registration data into its committed byte layout.
pub fn compress_voter_registration(
    voter: &Pubkey,
    attestation: &Pubkey,
    election: &Pubkey,
    registered_at: i64,
) -> (res: Result<Vec<u8>, GovError>)
    ensures
        res matches Ok(v) && v@ == (CompressedVoterData {
            voter: *voter,
            election: *election,
            attestation: *attestation,
            registered_at,
        }).spec_serialized(),
{
    let data = CompressedVoterData::new(*voter, *election, *attestation, registered_at);
    Ok(data.to_bytes())
}

/// Decompress voter registration data; fails unless the input is exactly
/// one serialized registration.
pub fn decompress_voter_registration(compressed_data: &[u8]) -> (res: Result<
    (Pubkey, Pubkey, Pubkey, i64),
    GovError,
>)
    ensures
        compressed_data@.len() == COMPRESSED_VOTER_DATA_LEN ==> (res matches Ok(t) && {
            &&& t.0@ == compressed_data@.subrange(0, 32)
            &&& t.1@ == compressed_data@.subrange(32, 64)
            &&& t.2@ == compressed_data@.subrange(64, 96)
            &&& t.3 == spec_u64_from_le_bytes(compressed_data@.subrange(96, 104)) as i64
        }),
        compressed_data@.len() != COMPRESSED_VOTER_DATA_LEN ==> (res matches Err(e) && e
            == GovError::InvalidMerkleProof),
{
    if compressed_data.len() != COMPRESSED_VOTER_DATA_LEN {
        return Err(GovError::InvalidMerkleProof);
    }
    let voter = Pubkey::new(read_bytes32(compressed_data, 0));
    let election = Pubkey::new(read_bytes32(compressed_data, 32));
    let attestation = Pubkey::new(read_bytes32(compressed_data, 64));
    let ts_bytes = &compressed_data[96..104];
    let registered_at = u64_from_le_bytes(ts_bytes) as i64;
    Ok((voter, election, attestation, registered_at))
}

/// Compute the leaf hash that the external tree-maintenance service is to
/// append for this registration; the service, not this library, performs
/// the append and owns the true root.
pub fn append_voter_to_tree(voter_data: &CompressedVoterData) -> (res: Result<
    [u8; 32],
    GovError,
>)
    ensures
        res matches Ok(h) && h@ == voter_data.leaf_hash_of(),
{
    voter_data.to_leaf_hash()
}

/// Verify a merkle proof for a compressed voter registration.
pub fn verify_compressed_voter_proof(
    merkle_root: &[u8; 32],
    leaf_hash: &[u8; 32],
    merkle_proof: &[[u8; 32]],
    leaf_index: u32,
) -> (res: Result<bool, GovError>)
    ensures
        res matches Ok(valid) && (valid <==> crate::utils::merkle::merkle_climb(
            leaf_hash@,
            crate::utils::merkle::proof_view(merkle_proof@),
            leaf_index as nat,
        ) == merkle_root@),
{
    crate::utils::merkle::verify_merkle_proof(*leaf_hash, *merkle_root, merkle_proof, leaf_index)
}

/// Decoding a serialized registration recovers every field, so the
/// committed layout loses no information.
pub proof fn lemma_compression_round_trip(d: CompressedVoterData)
    ensures
        d.spec_serialized().len() == COMPRESSED_VOTER_DATA_LEN,
        d.spec_serialized().subrange(0, 32) == d.voter@,
        d.spec_serialized().subrange(32, 64) == d.election@,
        d.spec_serialized().subrange(64, 96) == d.attestation@,
        spec_u64_from_le_bytes(d.spec_serialized().subrange(96, 104)) as i64 == d.registered_at,
{
    lemma_auto_spec_u64_to_from_le_bytes();
    assert(spec_u64_to_le_bytes(d.registered_at as u64).len() == 8);
    assert(d.spec_serialized().subrange(0, 32) =~= d.voter@);
    assert(d.spec_serialized().subrange(32, 64) =~= d.election@);
    assert(d.spec_serialized().subrange(64, 96) =~= d.attestation@);
    assert(d.spec_serialized().subrange(96, 104) =~= spec_u64_to_le_bytes(
        d.registered_at as u64,
    ));
    let x = d.registered_at;
    assert((x as u64) as i64 == x) by (bit_vector);
}

/// Smallest depth whose tree holds the given number of leaves.
pub open spec fn spec_ceil_log2(n: nat) -> nat
    decreases n,
{
    if n <= 1 {
        0
    } else {
        1 + spec_ceil_log2((n + 1) / 2)
    }
}

/// The tree depth used for a voter count, clamped to the supported range.
pub open spec fn spec_tree_depth(max_voters: nat) -> nat {
    let d = spec_ceil_log2(max_voters);
    if d < 14 {
        14
    } else if d > 30 {
        30
    } else {
        d
    }
}

/// Get the merkle tree size required for a given number of voters: the
/// depth needed for that many leaves, bounded to 14..=30, and the usual
/// buffer size of 64.
pub fn get_merkle_tree_size(max_voters: u32) -> (r: (u32, u32))
    ensures
        r.0 == spec_tree_depth(max_voters as nat),
        r.1 == 64,
{
    let mut depth: u32 = 0;
    let mut m: u64 = max_voters as u64;
    proof {
        lemma_ceil_log2_bound(max_voters as nat);
    }
    while m > 1
        invariant
            m <= u32::MAX,
            spec_ceil_log2(max_voters as nat) == depth + spec_ceil_log2(m as nat),
            depth + spec_ceil_log2(m as nat) <= 32,
        decreases m,
    {
        proof {
            assert(spec_ceil_log2(m as nat) == 1 + spec_ceil_log2(((m + 1) / 2) as nat));
        }
        m = (m + 1) / 2;
        depth = depth + 1;
    }
    let depth = if depth < 14 {
        14
    } else if depth > 30 {
        30
    } else {
        depth
    };
    (depth, 64)
}

/// The depth needed grows with the leaf count.
proof fn lemma_ceil_log2_mono(a: nat, b: nat)
    requires
        a <= b,
    ensures
        spec_ceil_log2(a) <= spec_ceil_log2(b),
    decreases a,
{
    if a > 1 {
        lemma_ceil_log2_mono((a + 1) / 2, (b + 1) / 2);
    }
}

/// The depth needed for any count in range never exceeds 32.
proof fn lemma_ceil_log2_bound(n: nat)
    requires
        n <= u32::MAX,
    ensures
        spec_ceil_log2(n) <= 32,
{
    lemma_ceil_log2_mono(n, 0x1_0000_0000);
    assert(spec_ceil_log2(0x1_0000_0000) == 32) by {
        reveal_with_fuel(spec_ceil_log2, 33);
    }
}

} // verus!
