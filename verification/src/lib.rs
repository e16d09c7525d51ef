//! A micro governance core: elections over a fixed candidate set, with
//! Merkle-membership eligibility proofs, an anti-replay nullifier ledger,
//! overflow-safe tallying, an all-or-nothing batch vote pipeline, outcome
//! hooks and a restricted privacy-tally gateway.

use vstd::prelude::*;

pub mod errors;
pub mod instructions;
pub mod pubkey;
pub mod state;
pub mod utils;

verus! {

/// Input for a single vote in batch voting.
#[derive(Clone, Debug)]
pub struct VoteInput {
    /// The election to vote in
    pub election: crate::pubkey::Pubkey,
    /// The choice to vote for
    pub choice: u8,
    /// Merkle proof showing the voter is registered
    pub merkle_proof: Vec<[u8; 32]>,
    /// Nullifier to prevent double voting
    pub nullifier: [u8; 32],
}

} // verus!
