//! Register a voter: commit the registration as a leaf hash (compressed
//! mode) or create the stored registration record (direct mode), update
//! the election's commitment root and its registration counter.

use vstd::prelude::*;
use crate::errors::GovError;
use crate::pubkey::Pubkey;
use crate::state::election::Election;
use crate::state::election::ElectionStatus;
use crate::state::election::same_election_config;
use crate::state::voter::VoterRegistration;
use crate::utils::compression::CompressedVoterData;
use crate::utils::merkle::create_voter_leaf;
use crate::utils::merkle::voter_leaf_of;

verus! {

/// The first failure of a registration request, if any: direct mode needs
/// the registration record's account, and the registration counter must
/// have room.
pub open spec fn register_voter_check(
    election: Election,
    registration_account_provided: bool,
) -> Result<(), GovError> {
    if !election.use_compression && !registration_account_provided {
        Err(GovError::InvalidAttestation)
    } else if election.total_registered == u64::MAX {
        Err(GovError::ArithmeticOverflow)
    } else {
        Ok(())
    }
}

/// The leaf hash a registration commits, by the election's mode.
pub open spec fn registration_leaf(
    election: Election,
    election_key: Pubkey,
    voter: Pubkey,
    attestation: Pubkey,
    now: i64,
) -> Seq<u8> {
    if election.use_compression {
        (CompressedVoterData {
            voter,
            election: election_key,
            attestation,
            registered_at: now,
        }).leaf_hash_of()
    } else {
        voter_leaf_of(voter@, election_key@, attestation@)
    }
}

/// Register `voter` for the election: on success the commitment root
/// tracks the new leaf, the registration counter goes up by one, the
/// election is promoted to Active once its window has opened, and direct
/// mode hands back the created registration record.
pub fn handler(
    election: &mut Election,
    election_key: Pubkey,
    voter: Pubkey,
    attestation: Pubkey,
    registration_account_provided: bool,
    now: i64,
) -> (res: Result<Option<VoterRegistration>, GovError>)
    requires
        old(election).wf(),
    ensures
        final(election).wf(),
        res matches Err(err) ==> register_voter_check(
            *old(election),
            registration_account_provided,
        ) == Err::<(), GovError>(err) && *final(election) == *old(election),
        res is Ok ==> {
            &&& register_voter_check(*old(election), registration_account_provided)
                == Ok::<(), GovError>(())
            &&& same_election_config(*final(election), *old(election))
            &&& final(election).vote_counts@ == old(election).vote_counts@
            &&& final(election).total_votes == old(election).total_votes
            &&& final(election).voter_merkle_root@ == registration_leaf(
                *old(election),
                election_key,
                voter,
                attestation,
                now,
            )
            &&& final(election).total_registered == old(election).total_registered + 1
            &&& final(election).status == (if old(election).status == ElectionStatus::Pending
                && now >= old(election).start_time {
                ElectionStatus::Active
            } else {
                old(election).status
            })
        },
        res matches Ok(reg) ==> (if old(election).use_compression {
            reg is None
        } else {
            reg == Some(
                VoterRegistration {
                    wallet: voter,
                    attestation,
                    election: election_key,
                    registered_at: now,
                },
            )
        }),
{
    if election.use_compression {
        // Compressed mode: the registration lives as a committed leaf; the
        // external tree service appends it and owns the true root, while
        // this record tracks the latest known commitment.
        let compressed_data = CompressedVoterData::new(voter, election_key, attestation, now);
        let leaf_hash = match compressed_data.to_leaf_hash() {
            Ok(h) => h,
            Err(e) => {
                return Err(e);
            },
        };
        if election.total_registered == u64::MAX {
            return Err(GovError::ArithmeticOverflow);
        }
        election.voter_merkle_root = leaf_hash;
        election.total_registered = election.total_registered + 1;
        if election.status == ElectionStatus::Pending && now >= election.start_time {
            election.status = ElectionStatus::Active;
        }
        Ok(None)
    } else {
        // Direct mode: the registration record must have been provided.
        if !registration_account_provided {
            return Err(GovError::InvalidAttestation);
        }
        let registration = VoterRegistration {
            wallet: voter,
            attestation,
            election: election_key,
            registered_at: now,
        };
        let leaf = create_voter_leaf(
            &registration.wallet,
            &registration.election,
            &registration.attestation,
        );
        if election.total_registered == u64::MAX {
            return Err(GovError::ArithmeticOverflow);
        }
        election.voter_merkle_root = leaf;
        election.total_registered = election.total_registered + 1;
        if election.status == ElectionStatus::Pending && now >= election.start_time {
            election.status = ElectionStatus::Active;
        }
        Ok(Some(registration))
    }
}

} // verus!
