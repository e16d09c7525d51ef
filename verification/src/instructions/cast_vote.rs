//! Cast a single vote: time/status/choice validity, then eligibility,
//! then the anti-replay nullifier, then the overflow-checked counter
//! increment — one atomic unit: on any failure nothing changes.

use vstd::prelude::*;
use crate::errors::GovError;
use crate::pubkey::Pubkey;
use crate::pubkey::default_key_bytes;
use crate::state::election::Election;
use crate::state::election::ElectionStatus;
use crate::state::election::same_election_config;
use crate::state::election::lemma_sum_counts_element;
use crate::state::election::lemma_sum_counts_update;
use crate::state::vote::MAX_NULLIFIERS;
use crate::state::vote::NullifierSet;
use crate::state::vote::VoteNullifier;
use crate::state::vote::nullifier_of;
use crate::state::voter::VoterRegistration;
use crate::utils::compression::CompressedVoterData;
use crate::utils::compression::verify_compressed_voter_proof;
use crate::utils::merkle::merkle_climb;
use crate::utils::merkle::proof_view;

verus! {

/// Whether the supplied proof material proves the voter eligible for this
/// election: in compressed mode, a valid Merkle membership proof of the
/// reconstructed leaf against the committed root; in direct mode, a stored
/// registration record matching the caller and the election.
pub open spec fn eligibility_check(
    election: Election,
    election_key: Pubkey,
    voter: Pubkey,
    merkle_proof: Seq<[u8; 32]>,
    leaf_index: Option<u32>,
    registered_at: Option<i64>,
    attestation: Option<Pubkey>,
    voter_registration: Option<VoterRegistration>,
) -> Result<(), GovError> {
    if election.use_compression {
        match (leaf_index, registered_at, attestation) {
            (Some(li), Some(ra), Some(att)) => {
                let leaf = (CompressedVoterData {
                    voter,
                    election: election_key,
                    attestation: att,
                    registered_at: ra,
                }).leaf_hash_of();
                if merkle_climb(leaf, proof_view(merkle_proof), li as nat)
                    == election.voter_merkle_root@ {
                    Ok(())
                } else {
                    Err(GovError::InvalidMerkleProof)
                }
            },
            _ => Err(GovError::InvalidMerkleProof),
        }
    } else {
        match voter_registration {
            Some(reg) => if reg.wallet@ == voter@ && reg.election@ == election_key@ {
                Ok(())
            } else {
                Err(GovError::NotRegistered)
            },
            None => Err(GovError::NotRegistered),
        }
    }
}

/// The first failure of a single-vote request, if any, in the order the
/// checks run: time window, lifecycle status, choice validity, eligibility,
/// replay, then the structural limits.
pub open spec fn cast_vote_check(
    election: Election,
    nullifier_set: NullifierSet,
    election_key: Pubkey,
    voter: Pubkey,
    choice: u8,
    merkle_proof: Seq<[u8; 32]>,
    leaf_index: Option<u32>,
    registered_at: Option<i64>,
    attestation: Option<Pubkey>,
    voter_registration: Option<VoterRegistration>,
    now: i64,
) -> Result<(), GovError> {
    if now < election.start_time {
        Err(GovError::ElectionNotStarted)
    } else if now > election.end_time {
        Err(GovError::ElectionEnded)
    } else if election.status == ElectionStatus::Ended {
        Err(GovError::ElectionEnded)
    } else if !(election.status == ElectionStatus::Active || (election.status
        == ElectionStatus::Pending && now >= election.start_time)) {
        Err(GovError::ElectionNotActive)
    } else if choice as int >= election.candidates@.len() {
        Err(GovError::InvalidChoice)
    } else if eligibility_check(
        election,
        election_key,
        voter,
        merkle_proof,
        leaf_index,
        registered_at,
        attestation,
        voter_registration,
    ) is Err {
        eligibility_check(
            election,
            election_key,
            voter,
            merkle_proof,
            leaf_index,
            registered_at,
            attestation,
            voter_registration,
        )
    } else if nullifier_set.spec_contains(nullifier_of(voter@, election_key@, 0)) {
        Err(GovError::AlreadyVoted)
    } else if election.total_votes == u64::MAX {
        Err(GovError::ArithmeticOverflow)
    } else if nullifier_set.used_nullifiers@.len() >= MAX_NULLIFIERS {
        Err(GovError::NullifierSetFull)
    } else {
        Ok(())
    }
}

/// No double count: once a (voter, election) pair's nullifier is in the
/// ledger — as it is after that pair's vote has been counted — no later
/// single-vote attempt by the same pair can succeed, whatever choice or
/// proof material it supplies; an attempt that passes every earlier check
/// fails precisely with AlreadyVoted.
pub proof fn lemma_no_double_count(
    election: Election,
    nullifier_set: NullifierSet,
    election_key: Pubkey,
    voter: Pubkey,
    choice: u8,
    merkle_proof: Seq<[u8; 32]>,
    leaf_index: Option<u32>,
    registered_at: Option<i64>,
    attestation: Option<Pubkey>,
    voter_registration: Option<VoterRegistration>,
    now: i64,
)
    requires
        nullifier_set.spec_contains(nullifier_of(voter@, election_key@, 0)),
    ensures
        cast_vote_check(
            election,
            nullifier_set,
            election_key,
            voter,
            choice,
            merkle_proof,
            leaf_index,
            registered_at,
            attestation,
            voter_registration,
            now,
        ) is Err,
        (election.start_time <= now <= election.end_time && election.status
            != ElectionStatus::Ended && (election.status == ElectionStatus::Active || (
        election.status == ElectionStatus::Pending && now >= election.start_time)) && (
        choice as int) < election.candidates@.len() && eligibility_check(
            election,
            election_key,
            voter,
            merkle_proof,
            leaf_index,
            registered_at,
            attestation,
            voter_registration,
        ) is Ok) ==> cast_vote_check(
            election,
            nullifier_set,
            election_key,
            voter,
            choice,
            merkle_proof,
            leaf_index,
            registered_at,
            attestation,
            voter_registration,
            now,
        ) == Err::<(), GovError>(GovError::AlreadyVoted),
{
}

/// Overflow guard: when the election's total counter already sits at the
/// unsigned 64-bit maximum, no single-vote attempt can succeed; one that
/// passes every earlier check fails precisely with ArithmeticOverflow —
/// and, by the handler's contract, every failure leaves both records
/// exactly unchanged.
pub proof fn lemma_overflow_guard(
    election: Election,
    nullifier_set: NullifierSet,
    election_key: Pubkey,
    voter: Pubkey,
    choice: u8,
    merkle_proof: Seq<[u8; 32]>,
    leaf_index: Option<u32>,
    registered_at: Option<i64>,
    attestation: Option<Pubkey>,
    voter_registration: Option<VoterRegistration>,
    now: i64,
)
    requires
        election.total_votes == u64::MAX,
    ensures
        cast_vote_check(
            election,
            nullifier_set,
            election_key,
            voter,
            choice,
            merkle_proof,
            leaf_index,
            registered_at,
            attestation,
            voter_registration,
            now,
        ) is Err,
        (election.start_time <= now <= election.end_time && election.status
            != ElectionStatus::Ended && (election.status == ElectionStatus::Active || (
        election.status == ElectionStatus::Pending && now >= election.start_time)) && (
        choice as int) < election.candidates@.len() && eligibility_check(
            election,
            election_key,
            voter,
            merkle_proof,
            leaf_index,
            registered_at,
            attestation,
            voter_registration,
        ) is Ok && !nullifier_set.spec_contains(nullifier_of(voter@, election_key@, 0)))
            ==> cast_vote_check(
            election,
            nullifier_set,
            election_key,
            voter,
            choice,
            merkle_proof,
            leaf_index,
            registered_at,
            attestation,
            voter_registration,
            now,
        ) == Err::<(), GovError>(GovError::ArithmeticOverflow),
{
}

/// Apply one verified, non-replayed vote: counters up by one with overflow
/// safety, the nullifier consumed, the election promoted to Active; on any
/// failure both records are exactly as before.
pub fn handler(
    election: &mut Election,
    nullifier_set: &mut NullifierSet,
    election_key: Pubkey,
    voter: Pubkey,
    choice: u8,
    merkle_proof: &Vec<[u8; 32]>,
    leaf_index: Option<u32>,
    registered_at: Option<i64>,
    attestation: Option<Pubkey>,
    voter_registration: Option<VoterRegistration>,
    now: i64,
) -> (res: Result<(), GovError>)
    requires
        old(election).wf(),
    ensures
        res == cast_vote_check(
            *old(election),
            *old(nullifier_set),
            election_key,
            voter,
            choice,
            merkle_proof@,
            leaf_index,
            registered_at,
            attestation,
            voter_registration,
            now,
        ),
        final(election).wf(),
        res is Err ==> *final(election) == *old(election) && *final(nullifier_set) == *old(
            nullifier_set,
        ),
        res is Ok ==> {
            &&& same_election_config(*final(election), *old(election))
            &&& final(election).voter_merkle_root@ == old(election).voter_merkle_root@
            &&& final(election).total_registered == old(election).total_registered
            &&& final(election).vote_counts@ == old(election).vote_counts@.update(
                choice as int,
                (old(election).vote_counts@[choice as int] + 1) as u64,
            )
            &&& final(election).total_votes == old(election).total_votes + 1
            &&& final(election).status == ElectionStatus::Active
            &&& final(nullifier_set).used_nullifiers@.len() == old(
                nullifier_set,
            ).used_nullifiers@.len() + 1
            &&& final(nullifier_set).used_nullifiers@.subrange(
                0,
                old(nullifier_set).used_nullifiers@.len() as int,
            ) == old(nullifier_set).used_nullifiers@
            &&& final(nullifier_set).used_nullifiers@.last()@ == nullifier_of(
                voter@,
                election_key@,
                0,
            )
            &&& final(nullifier_set).spec_contains(nullifier_of(voter@, election_key@, 0))
            &&& final(nullifier_set).election@ == (if old(nullifier_set).election@
                == default_key_bytes() {
                election_key@
            } else {
                old(nullifier_set).election@
            })
            &&& final(nullifier_set).bump == old(nullifier_set).bump
        },
{
    if now < election.start_time {
        return Err(GovError::ElectionNotStarted);
    }
    if now > election.end_time {
        return Err(GovError::ElectionEnded);
    }
    if election.status == ElectionStatus::Ended {
        return Err(GovError::ElectionEnded);
    }
    let active_ok = election.status == ElectionStatus::Active || (election.status
        == ElectionStatus::Pending && now >= election.start_time);
    if !active_ok {
        return Err(GovError::ElectionNotActive);
    }
    if choice as usize >= election.candidates.len() {
        return Err(GovError::InvalidChoice);
    }

    if election.use_compression {
        let (li, ra, att) = match (leaf_index, registered_at, attestation) {
            (Some(li), Some(ra), Some(att)) => (li, ra, att),
            _ => {
                return Err(GovError::InvalidMerkleProof);
            },
        };
        let compressed_data = CompressedVoterData::new(voter, election_key, att, ra);
        let leaf_hash = match compressed_data.to_leaf_hash() {
            Ok(h) => h,
            Err(e) => {
                return Err(e);
            },
        };
        let is_valid = match verify_compressed_voter_proof(
            &election.voter_merkle_root,
            &leaf_hash,
            merkle_proof.as_slice(),
            li,
        ) {
            Ok(b) => b,
            Err(e) => {
                return Err(e);
            },
        };
        if !is_valid {
            return Err(GovError::InvalidMerkleProof);
        }
    } else {
        match voter_registration {
            None => {
                return Err(GovError::NotRegistered);
            },
            Some(reg) => {
                if !(reg.wallet == voter && reg.election == election_key) {
                    return Err(GovError::NotRegistered);
                }
            },
        }
    }

    let nullifier = VoteNullifier::new(&voter, &election_key, 0);
    if nullifier_set.is_used(&nullifier.nullifier_hash) {
        return Err(GovError::AlreadyVoted);
    }
    if election.total_votes == u64::MAX {
        return Err(GovError::ArithmeticOverflow);
    }
    if nullifier_set.used_nullifiers.len() >= MAX_NULLIFIERS {
        return Err(GovError::NullifierSetFull);
    }

    // All checks passed: from here on, nothing can fail.
    if election.status == ElectionStatus::Pending {
        election.status = ElectionStatus::Active;
    }
    if nullifier_set.election.is_default() {
        nullifier_set.election = election_key;
    }

    let c = choice as usize;
    proof {
        lemma_sum_counts_element(election.vote_counts@, c as int);
    }
    let current = election.vote_counts[c];
    election.vote_counts.set(c, current + 1);
    proof {
        lemma_sum_counts_update(old(election).vote_counts@, c as int, (current + 1) as u64);
    }
    election.total_votes = election.total_votes + 1;
    match nullifier_set.mark_used(nullifier.nullifier_hash) {
        Ok(()) => {},
        Err(e) => {
            return Err(e);
        },
    }
    proof {
        assert(nullifier_set.used_nullifiers@.subrange(
            0,
            old(nullifier_set).used_nullifiers@.len() as int,
        ) =~= old(nullifier_set).used_nullifiers@);
        assert(nullifier_set.used_nullifiers@[old(
            nullifier_set,
        ).used_nullifiers@.len() as int]@ == nullifier_of(voter@, election_key@, 0));
    }
    Ok(())
}

} // verus!
