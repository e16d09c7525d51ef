//! Close an election: an authority-only transition into the terminal
//! Ended status; no other field changes.

use vstd::prelude::*;
use crate::errors::GovError;
use crate::pubkey::Pubkey;
use crate::state::election::Election;
use crate::state::election::ElectionStatus;

verus! {

/// The first failure for a close request, if any: only the authority may
/// close, and an election already Ended or Cancelled stays as it is.
pub open spec fn close_election_check(election: Election, caller: Pubkey) -> Result<
    (),
    GovError,
> {
    if caller@ != election.authority@ {
        Err(GovError::Unauthorized)
    } else if election.status == ElectionStatus::Ended {
        Err(GovError::ElectionEnded)
    } else if election.status == ElectionStatus::Cancelled {
        Err(GovError::ElectionNotActive)
    } else {
        Ok(())
    }
}

/// Set the election's status to Ended; every other field keeps its value.
pub fn handler(election: &mut Election, caller: &Pubkey) -> (res: Result<(), GovError>)
    ensures
        res == close_election_check(*old(election), *caller),
        res is Err ==> *final(election) == *old(election),
        res is Ok ==> *final(election) == (Election {
            status: ElectionStatus::Ended,
            ..*old(election)
        }),
        old(election).wf() ==> final(election).wf(),
{
    if !(caller == &election.authority) {
        return Err(GovError::Unauthorized);
    }
    match election.status {
        ElectionStatus::Ended => Err(GovError::ElectionEnded),
        ElectionStatus::Cancelled => Err(GovError::ElectionNotActive),
        _ => {
            election.status = ElectionStatus::Ended;
            Ok(())
        },
    }
}

} // verus!
