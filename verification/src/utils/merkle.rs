//! Merkle membership proof verification: a sequence of sibling hashes,
//! combined bottom-up with a leaf, reproduces a committed root iff the
//! leaf was included in the committed set.

use vstd::prelude::*;
use crate::errors::GovError;
use crate::pubkey::Pubkey;
use crate::utils::bytes32::bytes32_eq;
use crate::utils::bytes32::push_bytes32;
use crate::utils::hashing::sha256;
use crate::utils::hashing::sha256_of;

verus! {

/// The combined hash of two sibling nodes.
pub open spec fn hash_pair_of(left: Seq<u8>, right: Seq<u8>) -> Seq<u8> {
    sha256_of(left + right)
}

/// The root reached by climbing from `leaf` at position `index`, combining
/// with each proof element in turn: the current node goes on the left when
/// its index is even, on the right when odd, and the index halves per level.
pub open spec fn merkle_climb(leaf: Seq<u8>, proof: Seq<Seq<u8>>, index: nat) -> Seq<u8>
    decreases proof.len(),
{
    if proof.len() == 0 {
        leaf
    } else {
        let next = if index % 2 == 0 {
            hash_pair_of(leaf, proof[0])
        } else {
            hash_pair_of(proof[0], leaf)
        };
        merkle_climb(next, proof.drop_first(), index / 2)
    }
}

/// The byte sequences of a proof path.
pub open spec fn proof_view(proof: Seq<[u8; 32]>) -> Seq<Seq<u8>> {
    proof.map_values(|e: [u8; 32]| e@)
}

/// Hash two nodes together (left and right).
pub fn hash_pair(left: &[u8; 32], right: &[u8; 32]) -> (h: [u8; 32])
    ensures
        h@ == hash_pair_of(left@, right@),
{
    let mut data: Vec<u8> = Vec::new();
    push_bytes32(&mut data, left);
    push_bytes32(&mut data, right);
    proof {
        assert(data@ =~= left@ + right@);
    }
    sha256(&data)
}

/// Verify a merkle proof: succeeds iff climbing from `leaf` at
/// `leaf_index` through `proof` reproduces `merkle_root`.
pub fn verify_merkle_proof(
    leaf: [u8; 32],
    merkle_root: [u8; 32],
    proof: &[[u8; 32]],
    leaf_index: u32,
) -> (res: Result<bool, GovError>)
    ensures
        res matches Ok(valid) && (valid <==> merkle_climb(
            leaf@,
            proof_view(proof@),
            leaf_index as nat,
        ) == merkle_root@),
{
    let mut computed_hash: [u8; 32] = leaf;
    let mut index: u32 = leaf_index;
    let n = proof.len();
    let mut i: usize = 0;
    proof {
        assert(proof@.skip(0) =~= proof@);
    }
    while i < n
        invariant
            n == proof@.len(),
            i <= n,
            merkle_climb(leaf@, proof_view(proof@), leaf_index as nat) == merkle_climb(
                computed_hash@,
                proof_view(proof@.skip(i as int)),
                index as nat,
            ),
        decreases n - i,
    {
        let proof_element = &proof[i];
        proof {
            assert(proof_view(proof@.skip(i as int))[0] == proof@[i as int]@);
            assert(proof_view(proof@.skip(i as int)).drop_first() =~= proof_view(
                proof@.skip(i + 1),
            ));
        }
        if index % 2 == 0 {
            // If index is even, current hash goes on left
            computed_hash = hash_pair(&computed_hash, proof_element);
        } else {
            // If index is odd, current hash goes on right
            computed_hash = hash_pair(proof_element, &computed_hash);
        }
        index = index / 2;
        i = i + 1;
    }
    proof {
        assert(proof_view(proof@.skip(n as int)).len() == 0);
    }
    Ok(bytes32_eq(&computed_hash, &merkle_root))
}

/// The leaf hash committing one voter's registration (legacy encoding).
pub open spec fn voter_leaf_of(voter: Seq<u8>, election: Seq<u8>, attestation: Seq<u8>) -> Seq<
    u8,
> {
    sha256_of(voter + election + attestation)
}

/// Create a leaf hash from voter data.
pub fn create_voter_leaf(voter: &Pubkey, election: &Pubkey, attestation: &Pubkey) -> (h: [u8; 32])
    ensures
        h@ == voter_leaf_of(voter@, election@, attestation@),
{
    let mut data: Vec<u8> = Vec::new();
    push_bytes32(&mut data, &voter.bytes);
    push_bytes32(&mut data, &election.bytes);
    push_bytes32(&mut data, &attestation.bytes);
    proof {
        assert(data@ =~= voter@ + election@ + attestation@);
    }
    sha256(&data)
}

} // verus!
