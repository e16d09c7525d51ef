//! Vote-side records: the archived vote record, the anti-replay nullifier
//! and the per-election ledger of consumed nullifiers.

use vstd::prelude::*;
use crate::errors::GovError;
use crate::pubkey::Pubkey;
use crate::utils::bytes32::bytes32_eq;
use crate::utils::bytes32::push_bytes32;
use crate::utils::hashing::sha256;
use crate::utils::hashing::sha256_of;
use vstd::bytes::u64_to_le_bytes;
use vstd::bytes::spec_u64_to_le_bytes;

verus! {

/// Size of a vote record with its optional signature, in bytes
pub const VOTE_RECORD_SIZE: usize = 138;

/// Size of a vote record without a signature, in bytes
pub const VOTE_RECORD_SIZE_NO_SIG: usize = 74;

/// Size of a nullifier, in bytes
pub const NULLIFIER_SIZE: usize = 32;

/// Initial size allocation of a nullifier ledger record, in bytes
pub const NULLIFIER_SET_INIT_SIZE: usize = 45;

/// Maximum nullifiers in one ledger, reflecting its storage budget
pub const MAX_NULLIFIERS: usize = 300000;

/// Vote record kept for the historical archive after an election ends.
#[derive(Clone, Copy, Debug)]
pub struct VoteRecord {
    /// The election this vote was cast in
    pub election: Pubkey,
    /// Hash of the voter (anonymous for privacy)
    pub voter_hash: [u8; 32],
    /// The choice that was voted for (index into the candidates array)
    pub choice: u8,
    /// Unix timestamp when the vote was cast
    pub timestamp: i64,
    /// Optional transaction signature for verification
    pub signature: Option<[u8; 64]>,
}

/// The one-way token consumed exactly once per (voter, election): a second
/// vote attempt by the same pair always collides with it.
#[derive(Clone, Copy, Debug)]
pub struct VoteNullifier {
    /// Hash that uniquely identifies this vote, derived from
    /// (voter, election, nonce)
    pub nullifier_hash: [u8; 32],
}

/// The nullifier derived from a (voter, election, nonce) triple.
pub open spec fn nullifier_of(voter: Seq<u8>, election: Seq<u8>, nonce: u64) -> Seq<u8> {
    sha256_of(voter + election + spec_u64_to_le_bytes(nonce))
}

impl VoteNullifier {
    /// Create the nullifier for a (voter, election, nonce) triple.
    pub fn new(voter: &Pubkey, election: &Pubkey, nonce: u64) -> (n: VoteNullifier)
        ensures
            n.nullifier_hash@ == nullifier_of(voter@, election@, nonce),
    {
        let mut data: Vec<u8> = Vec::new();
        push_bytes32(&mut data, &voter.bytes);
        push_bytes32(&mut data, &election.bytes);
        let mut tail = u64_to_le_bytes(nonce);
        data.append(&mut tail);
        proof {
            assert(data@ =~= voter@ + election@ + spec_u64_to_le_bytes(nonce));
        }
        VoteNullifier { nullifier_hash: sha256(&data) }
    }
}

impl PartialEq for VoteNullifier {
    fn eq(&self, other: &VoteNullifier) -> bool {
        bytes32_eq(&self.nullifier_hash, &other.nullifier_hash)
    }
}

impl vstd::std_specs::cmp::PartialEqSpecImpl for VoteNullifier {
    open spec fn obeys_eq_spec() -> bool {
        true
    }

    open spec fn eq_spec(&self, other: &VoteNullifier) -> bool {
        self.nullifier_hash@ == other.nullifier_hash@
    }
}

/// Per-election ledger of consumed nullifiers: the sole guard against
/// counting a voter twice.
#[derive(Clone, Debug)]
pub struct NullifierSet {
    /// The election these nullifiers belong to
    pub election: Pubkey,
    /// The consumed nullifier hashes, append-only
    pub used_nullifiers: Vec<[u8; 32]>,
    /// Bump seed for the record's derived address
    pub bump: u8,
}

impl NullifierSet {
    /// Whether the ledger holds the given nullifier.
    pub open spec fn spec_contains(self, n: Seq<u8>) -> bool {
        exists|i: int|
            0 <= i < self.used_nullifiers@.len() && self.used_nullifiers@[i]@ == n
    }

    /// Check whether a nullifier has been consumed already.
    pub fn is_used(&self, nullifier: &[u8; 32]) -> (r: bool)
        ensures
            r == self.spec_contains(nullifier@),
    {
        let n = self.used_nullifiers.len();
        let mut i: usize = 0;
        while i < n
            invariant
                n == self.used_nullifiers@.len(),
                i <= n,
                forall|k: int| 0 <= k < i ==> self.used_nullifiers@[k]@ != nullifier@,
            decreases n - i,
        {
            if bytes32_eq(&self.used_nullifiers[i], nullifier) {
                assert(self.used_nullifiers@[i as int]@ == nullifier@);
                return true;
            }
            i = i + 1;
        }
        false
    }

    /// Consume a nullifier; fails once the ledger's capacity is reached.
    pub fn mark_used(&mut self, nullifier: [u8; 32]) -> (r: Result<(), GovError>)
        ensures
            old(self).used_nullifiers@.len() >= MAX_NULLIFIERS ==> {
                &&& r == Err::<(), GovError>(GovError::NullifierSetFull)
                &&& *final(self) == *old(self)
            },
            old(self).used_nullifiers@.len() < MAX_NULLIFIERS ==> {
                &&& r == Ok::<(), GovError>(())
                &&& final(self).used_nullifiers@ == old(self).used_nullifiers@.push(
                    nullifier,
                )
                &&& final(self).election == old(self).election
                &&& final(self).bump == old(self).bump
            },
    {
        if self.used_nullifiers.len() >= MAX_NULLIFIERS {
            return Err(GovError::NullifierSetFull);
        }
        self.used_nullifiers.push(nullifier);
        Ok(())
    }
}

} // verus!
