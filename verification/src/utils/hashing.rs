//! The two hash primitives the core builds on, called from the runtime's
//! crate and taken on trust: everything layered above them is verified
//! against the names given to their results here.

use vstd::prelude::*;

verus! {

/// The SHA-256 digest of a byte sequence; a function of the bytes alone.
pub uninterp spec fn sha256_of(data: Seq<u8>) -> Seq<u8>;

/// Relies on solana_program::hash::hash, which returns the SHA-256 digest
/// of the input bytes; the digest depends on the input alone.
#[verifier::external_body]
pub(crate) fn sha256(data: &Vec<u8>) -> (digest: [u8; 32])
    ensures
        digest@ == sha256_of(data@),
{
    solana_program::hash::hash(data.as_slice()).to_bytes()
}

/// The Keccak-256 digest of a byte sequence; a function of the bytes alone.
pub uninterp spec fn keccak256_of(data: Seq<u8>) -> Seq<u8>;

/// Relies on solana_program::keccak::hash, which returns the Keccak-256
/// digest of the input bytes; the digest depends on the input alone.
#[verifier::external_body]
pub(crate) fn keccak256(data: &Vec<u8>) -> (digest: [u8; 32])
    ensures
        digest@ == keccak256_of(data@),
{
    solana_program::keccak::hash(data.as_slice()).to_bytes()
}

} // verus!
