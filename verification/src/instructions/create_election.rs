//! Create a new election: validate the candidate list and the time
//! window, and produce the zeroed election record.

use vstd::prelude::*;
use crate::errors::GovError;
use crate::pubkey::Pubkey;
use crate::pubkey::default_key_bytes;
use crate::state::election::Election;
use crate::state::election::ElectionStatus;
use crate::state::election::MAX_CANDIDATES;
use crate::state::election::MAX_CANDIDATE_NAME_LEN;
use crate::state::election::lemma_sum_counts_zero;
use vstd::string::StrSliceExecFns;

verus! {

/// The character sequences of a candidate list.
pub open spec fn candidates_view(candidates: Seq<String>) -> Seq<Seq<char>> {
    candidates.map_values(|c: String| c@)
}

/// The first validation failure for a creation request, if any: the
/// candidate list must hold 1 to 10 names of at most 50 characters, the
/// window must end after it starts, and it cannot be back-dated.
pub open spec fn create_election_check(
    candidates: Seq<Seq<char>>,
    start_time: i64,
    end_time: i64,
    now: i64,
) -> Result<(), GovError> {
    if !(1 <= candidates.len() <= MAX_CANDIDATES) {
        Err(GovError::TooManyCandidates)
    } else if exists|i: int|
        0 <= i < candidates.len() && candidates[i].len() > MAX_CANDIDATE_NAME_LEN {
        Err(GovError::CandidateNameTooLong)
    } else if !(end_time > start_time) {
        Err(GovError::InvalidTimeRange)
    } else if !(start_time >= now) {
        Err(GovError::StartTimeInPast)
    } else {
        Ok(())
    }
}

/// Build a validated election record, owned by `authority`, with zeroed
/// counters and commitment root, Pending unless its window already opened.
pub fn handler(
    authority: Pubkey,
    candidates: Vec<String>,
    start_time: i64,
    end_time: i64,
    use_compression: bool,
    merkle_tree: Option<Pubkey>,
    bump: u8,
    now: i64,
) -> (res: Result<Election, GovError>)
    ensures
        res matches Err(err) ==> create_election_check(
            candidates_view(candidates@),
            start_time,
            end_time,
            now,
        ) == Err::<(), GovError>(err),
        res matches Ok(e) ==> {
            &&& create_election_check(candidates_view(candidates@), start_time, end_time, now)
                == Ok::<(), GovError>(())
            &&& e.wf()
            &&& e.authority == authority
            &&& e.candidates@ == candidates@
            &&& e.vote_counts@.len() == candidates@.len()
            &&& (forall|i: int| 0 <= i < e.vote_counts@.len() ==> e.vote_counts@[i] == 0)
            &&& e.total_votes == 0
            &&& e.total_registered == 0
            &&& e.voter_merkle_root@ == default_key_bytes()
            &&& e.start_time == start_time
            &&& e.end_time == end_time
            &&& e.status == (if start_time <= now {
                ElectionStatus::Active
            } else {
                ElectionStatus::Pending
            })
            &&& e.use_compression == use_compression
            &&& (use_compression ==> (merkle_tree matches Some(k) ==> e.merkle_tree == k))
            &&& (use_compression && merkle_tree is None ==> e.merkle_tree@
                == default_key_bytes())
            &&& (!use_compression ==> e.merkle_tree@ == default_key_bytes())
            &&& e.bump == bump
            &&& !e.privacy_enabled
            &&& e.privacy_layer_program@ == default_key_bytes()
            &&& e.on_success_hook is None
            &&& e.on_failure_hook is None
        },
{
    let n = candidates.len();
    if !(n > 0 && n <= MAX_CANDIDATES) {
        return Err(GovError::TooManyCandidates);
    }
    let mut i: usize = 0;
    while i < n
        invariant
            n == candidates@.len(),
            1 <= n <= MAX_CANDIDATES,
            i <= n,
            forall|k: int|
                0 <= k < i ==> candidates@[k]@.len() <= MAX_CANDIDATE_NAME_LEN,
        decreases n - i,
    {
        if candidates[i].as_str().unicode_len() > MAX_CANDIDATE_NAME_LEN {
            assert(candidates_view(candidates@).len() == candidates@.len());
            assert(candidates_view(candidates@)[i as int].len() > MAX_CANDIDATE_NAME_LEN);
            return Err(GovError::CandidateNameTooLong);
        }
        i = i + 1;
    }
    proof {
        assert(forall|k: int|
            0 <= k < candidates@.len() ==> candidates_view(candidates@)[k].len()
                <= MAX_CANDIDATE_NAME_LEN);
    }
    if !(end_time > start_time) {
        return Err(GovError::InvalidTimeRange);
    }
    if !(start_time >= now) {
        return Err(GovError::StartTimeInPast);
    }

    let mut vote_counts: Vec<u64> = Vec::new();
    let mut j: usize = 0;
    while j < n
        invariant
            j <= n,
            vote_counts@.len() == j,
            forall|k: int| 0 <= k < j ==> vote_counts@[k] == 0,
        decreases n - j,
    {
        vote_counts.push(0);
        j = j + 1;
    }
    proof {
        lemma_sum_counts_zero(vote_counts@);
    }

    let status = if start_time <= now {
        ElectionStatus::Active
    } else {
        ElectionStatus::Pending
    };
    let tree_key = if use_compression {
        match merkle_tree {
            Some(k) => k,
            None => Pubkey::default(),
        }
    } else {
        Pubkey::default()
    };

    let zeroed_root: [u8; 32] = [0u8; 32];
    proof {
        assert(zeroed_root@ =~= default_key_bytes());
    }
    Ok(
        Election {
            authority,
            candidates,
            vote_counts,
            total_votes: 0,
            voter_merkle_root: zeroed_root,
            start_time,
            end_time,
            status,
            use_compression,
            merkle_tree: tree_key,
            total_registered: 0,
            bump,
            privacy_enabled: false,
            privacy_layer_program: Pubkey::default(),
            on_success_hook: None,
            on_failure_hook: None,
        },
    )
}

} // verus!
