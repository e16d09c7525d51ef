//! Voter-side records: the per-voter registration record used in direct
//! mode, and the Merkle proof material used in compressed mode.

use vstd::prelude::*;
use crate::pubkey::Pubkey;

verus! {

/// Size of a voter registration record, in bytes:
/// 32 (wallet) + 32 (attestation) + 32 (election) + 8 (registered_at)
pub const VOTER_REGISTRATION_SIZE: usize = 104;

/// Maximum depth of the voter merkle tree:
/// 20 levels support 2^20 = 1,048,576 voters
pub const MAX_PROOF_DEPTH: usize = 20;

/// Voter registration record, one per (election, voter) in direct mode.
/// Created once, immutable thereafter.
#[derive(Clone, Copy, Debug)]
pub struct VoterRegistration {
    /// The wallet address of the registered voter
    pub wallet: Pubkey,
    /// Reference to the attestation proving the voter's eligibility
    pub attestation: Pubkey,
    /// The election this voter is registered for
    pub election: Pubkey,
    /// Unix timestamp when the voter registered
    pub registered_at: i64,
}

/// Merkle proof material for one committed voter.
#[derive(Clone, Debug)]
pub struct VoterMerkleProof {
    /// Merkle proof path (up to 20 levels for 1M voters)
    pub proof: Vec<[u8; 32]>,
    /// Leaf index in the tree
    pub leaf_index: u32,
}

} // verus!
