//! Privacy layer interface: a restricted side-channel that lets one
//! designated external authority overwrite the counters directly,
//! bypassing the eligibility verifier and the nullifier ledger entirely.
//! Integrity on this path rests on the registered privacy layer alone.

use vstd::prelude::*;
use crate::errors::GovError;
use crate::pubkey::Pubkey;
use crate::pubkey::default_key_bytes;
use crate::state::election::Election;
use crate::state::election::ElectionStatus;
use crate::state::election::same_election_config;
use crate::state::election::sum_counts;
use crate::state::election::lemma_sum_counts_prefix_step;
use crate::state::election::lemma_sum_counts_prefix_le;

verus! {

/// The first failure when enabling private voting, if any: authority-only,
/// before the election starts, and the privacy program must be invocable.
pub open spec fn enable_private_voting_check(
    election: Election,
    caller: Pubkey,
    program_executable: bool,
) -> Result<(), GovError> {
    if election.authority@ != caller@ {
        Err(GovError::Unauthorized)
    } else if election.status != ElectionStatus::Pending {
        Err(GovError::ElectionAlreadyStarted)
    } else if !program_executable {
        Err(GovError::InvalidPrivacyProgram)
    } else {
        Ok(())
    }
}

/// Enable private voting: record the privacy layer that may later hand in
/// the finalized tally.
pub fn enable_private_voting(
    election: &mut Election,
    caller: Pubkey,
    privacy_layer_program: Pubkey,
    program_executable: bool,
) -> (res: Result<(), GovError>)
    ensures
        res == enable_private_voting_check(*old(election), caller, program_executable),
        res is Err ==> *final(election) == *old(election),
        res is Ok ==> *final(election) == (Election {
            privacy_enabled: true,
            privacy_layer_program,
            ..*old(election)
        }),
        old(election).wf() ==> final(election).wf(),
{
    if !(caller == election.authority) {
        return Err(GovError::Unauthorized);
    }
    if !(election.status == ElectionStatus::Pending) {
        return Err(GovError::ElectionAlreadyStarted);
    }
    if !program_executable {
        return Err(GovError::InvalidPrivacyProgram);
    }
    election.privacy_enabled = true;
    election.privacy_layer_program = privacy_layer_program;
    Ok(())
}

/// The first failure of a tally hand-off, if any: privacy must be enabled,
/// only the registered privacy layer may call, the tally must be
/// index-aligned with the candidates, and its sum must fit the counter.
pub open spec fn receive_private_tally_check(
    election: Election,
    caller_program: Pubkey,
    tally: Seq<u64>,
) -> Result<(), GovError> {
    if !election.privacy_enabled {
        Err(GovError::PrivacyNotEnabled)
    } else if caller_program@ != election.privacy_layer_program@ {
        Err(GovError::UnauthorizedPrivacyLayer)
    } else if tally.len() != election.candidates@.len() {
        Err(GovError::InvalidTally)
    } else if sum_counts(tally) > u64::MAX {
        Err(GovError::ArithmeticOverflow)
    } else {
        Ok(())
    }
}

/// Receive the finalized tally from the privacy layer: unconditionally
/// overwrite the per-candidate counters with `tally` and `total_votes`
/// with its sum. No anti-replay exists on this path.
pub fn receive_private_tally(
    election: &mut Election,
    caller_program: Pubkey,
    tally: &Vec<u64>,
    _proof: &Vec<u8>,
) -> (res: Result<(), GovError>)
    requires
        old(election).wf(),
    ensures
        res == receive_private_tally_check(*old(election), caller_program, tally@),
        final(election).wf(),
        res is Err ==> *final(election) == *old(election),
        res is Ok ==> {
            &&& same_election_config(*final(election), *old(election))
            &&& final(election).vote_counts@ == tally@
            &&& final(election).total_votes == sum_counts(tally@)
            &&& final(election).voter_merkle_root@ == old(election).voter_merkle_root@
            &&& final(election).total_registered == old(election).total_registered
            &&& final(election).status == old(election).status
        },
{
    if !election.privacy_enabled {
        return Err(GovError::PrivacyNotEnabled);
    }
    if !(caller_program == election.privacy_layer_program) {
        return Err(GovError::UnauthorizedPrivacyLayer);
    }
    let n = tally.len();
    if n != election.candidates.len() {
        return Err(GovError::InvalidTally);
    }

    // Sum the tally with overflow checking before touching anything.
    let mut total: u64 = 0;
    let mut i: usize = 0;
    proof {
        assert(tally@.subrange(0, 0) =~= Seq::<u64>::empty());
    }
    while i < n
        invariant
            n == tally@.len(),
            i <= n,
            total == sum_counts(tally@.subrange(0, i as int)),
            *election == *old(election),
            old(election).wf(),
            election.privacy_enabled,
            caller_program@ == election.privacy_layer_program@,
            n == election.candidates@.len(),
        decreases n - i,
    {
        proof {
            lemma_sum_counts_prefix_step(tally@, i as int);
        }
        let v = tally[i];
        if total > u64::MAX - v {
            proof {
                lemma_sum_counts_prefix_le(tally@, i + 1);
            }
            return Err(GovError::ArithmeticOverflow);
        }
        total = total + v;
        i = i + 1;
    }
    proof {
        assert(tally@.subrange(0, n as int) =~= tally@);
    }

    // Overwrite the counters.
    let mut new_counts: Vec<u64> = Vec::new();
    let mut j: usize = 0;
    while j < n
        invariant
            n == tally@.len(),
            j <= n,
            new_counts@ == tally@.subrange(0, j as int),
            *election == *old(election),
        decreases n - j,
    {
        new_counts.push(tally[j]);
        proof {
            assert(new_counts@ =~= tally@.subrange(0, j + 1));
        }
        j = j + 1;
    }
    proof {
        assert(new_counts@ =~= tally@);
    }
    election.vote_counts = new_counts;
    election.total_votes = total;
    Ok(())
}

/// The first failure when disabling private voting, if any.
pub open spec fn disable_private_voting_check(election: Election, caller: Pubkey) -> Result<
    (),
    GovError,
> {
    if election.authority@ != caller@ {
        Err(GovError::Unauthorized)
    } else if election.status != ElectionStatus::Pending {
        Err(GovError::ElectionAlreadyStarted)
    } else {
        Ok(())
    }
}

/// Disable private voting before the election starts, reverting to the
/// public voting path.
pub fn disable_private_voting(election: &mut Election, caller: Pubkey) -> (res: Result<
    (),
    GovError,
>)
    ensures
        res == disable_private_voting_check(*old(election), caller),
        res is Err ==> *final(election) == *old(election),
        res is Ok ==> {
            &&& !final(election).privacy_enabled
            &&& final(election).privacy_layer_program@ == default_key_bytes()
            &&& *final(election) == (Election {
                privacy_enabled: false,
                privacy_layer_program: final(election).privacy_layer_program,
                ..*old(election)
            })
        },
        old(election).wf() ==> final(election).wf(),
{
    if !(caller == election.authority) {
        return Err(GovError::Unauthorized);
    }
    if !(election.status == ElectionStatus::Pending) {
        return Err(GovError::ElectionAlreadyStarted);
    }
    election.privacy_enabled = false;
    election.privacy_layer_program = Pubkey::default();
    Ok(())
}

} // verus!
