//! Execution hooks: an externally registered callback invoked with the
//! outcome of a closed election. This module owns the outcome computation
//! (winner, threshold) and the hook configuration; the invocation itself
//! is one external call made by the host with the payload built here.

use vstd::prelude::*;
use crate::errors::GovError;
use crate::pubkey::Pubkey;
use crate::state::election::Election;
use crate::state::election::ElectionStatus;
use crate::utils::bytes32::push_bytes32;
use crate::utils::compression::spec_i64_to_le_bytes;
use vstd::bytes::u64_to_le_bytes;
use vstd::bytes::spec_u64_to_le_bytes;

verus! {

/// The first failure when configuring hooks, if any: authority-only, and
/// only while the election is still pending.
pub open spec fn hook_config_check(
    election: Election,
    caller: Pubkey,
    program_executable: bool,
) -> Result<(), GovError> {
    if election.authority@ != caller@ {
        Err(GovError::Unauthorized)
    } else if election.status != ElectionStatus::Pending {
        Err(GovError::ElectionAlreadyStarted)
    } else if !program_executable {
        Err(GovError::InvalidHookProgram)
    } else {
        Ok(())
    }
}

/// Set a hook to execute when the election succeeds (passes threshold).
pub fn set_success_hook(
    election: &mut Election,
    caller: Pubkey,
    hook_program: Pubkey,
    program_executable: bool,
) -> (res: Result<(), GovError>)
    ensures
        res == hook_config_check(*old(election), caller, program_executable),
        res is Err ==> *final(election) == *old(election),
        res is Ok ==> *final(election) == (Election {
            on_success_hook: Some(hook_program),
            ..*old(election)
        }),
        old(election).wf() ==> final(election).wf(),
{
    if !(caller == election.authority) {
        return Err(GovError::Unauthorized);
    }
    if !(election.status == ElectionStatus::Pending) {
        return Err(GovError::ElectionAlreadyStarted);
    }
    if !program_executable {
        return Err(GovError::InvalidHookProgram);
    }
    election.on_success_hook = Some(hook_program);
    Ok(())
}

/// Set a hook to execute when the election fails (doesn't pass threshold).
pub fn set_failure_hook(
    election: &mut Election,
    caller: Pubkey,
    hook_program: Pubkey,
    program_executable: bool,
) -> (res: Result<(), GovError>)
    ensures
        res == hook_config_check(*old(election), caller, program_executable),
        res is Err ==> *final(election) == *old(election),
        res is Ok ==> *final(election) == (Election {
            on_failure_hook: Some(hook_program),
            ..*old(election)
        }),
        old(election).wf() ==> final(election).wf(),
{
    if !(caller == election.authority) {
        return Err(GovError::Unauthorized);
    }
    if !(election.status == ElectionStatus::Pending) {
        return Err(GovError::ElectionAlreadyStarted);
    }
    if !program_executable {
        return Err(GovError::InvalidHookProgram);
    }
    election.on_failure_hook = Some(hook_program);
    Ok(())
}

/// The first failure when clearing hooks, if any.
pub open spec fn clear_hooks_check(election: Election, caller: Pubkey) -> Result<(), GovError> {
    if election.authority@ != caller@ {
        Err(GovError::Unauthorized)
    } else if election.status != ElectionStatus::Pending {
        Err(GovError::ElectionAlreadyStarted)
    } else {
        Ok(())
    }
}

/// Clear all hooks (before the election starts).
pub fn clear_hooks(election: &mut Election, caller: Pubkey) -> (res: Result<(), GovError>)
    ensures
        res == clear_hooks_check(*old(election), caller),
        res is Err ==> *final(election) == *old(election),
        res is Ok ==> *final(election) == (Election {
            on_success_hook: None,
            on_failure_hook: None,
            ..*old(election)
        }),
        old(election).wf() ==> final(election).wf(),
{
    if !(caller == election.authority) {
        return Err(GovError::Unauthorized);
    }
    if !(election.status == ElectionStatus::Pending) {
        return Err(GovError::ElectionAlreadyStarted);
    }
    election.on_success_hook = None;
    election.on_failure_hook = None;
    Ok(())
}

/// The winning index of a counter vector: the index holding the maximum
/// value; on ties, the highest index among the tied maxima.
pub open spec fn spec_winning_choice(counts: Seq<u64>) -> int
    decreases counts.len(),
{
    if counts.len() <= 1 {
        0
    } else {
        let rest = spec_winning_choice(counts.drop_last());
        if counts.last() >= counts[rest] {
            counts.len() - 1
        } else {
            rest
        }
    }
}

/// The winning index carries the maximum count, and every tied maximum
/// sits at or below it: the highest index among tied maxima wins.
pub proof fn lemma_winning_choice_is_max(counts: Seq<u64>)
    requires
        counts.len() >= 1,
    ensures
        0 <= spec_winning_choice(counts) < counts.len(),
        forall|j: int|
            0 <= j < counts.len() ==> #[trigger] counts[j] <= counts[spec_winning_choice(
                counts,
            )],
        forall|j: int|
            spec_winning_choice(counts) < j < counts.len() ==> #[trigger] counts[j] < counts[
                spec_winning_choice(counts)
            ],
    decreases counts.len(),
{
    if counts.len() > 1 {
        lemma_winning_choice_is_max(counts.drop_last());
        assert(forall|j: int|
            0 <= j < counts.len() - 1 ==> counts[j] == counts.drop_last()[j]);
    }
}

/// Whether the outcome passes: a strict majority of all votes cast; a pure
/// tie does not pass and zero votes never passes.
pub open spec fn spec_passed(counts: Seq<u64>, total_votes: u64) -> bool
    recommends
        counts.len() >= 1,
{
    total_votes > 0 && counts[spec_winning_choice(counts)] > total_votes / 2
}

/// The index holding the maximum count (ties resolved to the highest
/// index), computed from the final counters.
pub fn winning_index(counts: &Vec<u64>) -> (w: usize)
    requires
        counts@.len() >= 1,
    ensures
        w == spec_winning_choice(counts@),
        w < counts@.len(),
{
    let n = counts.len();
    let mut win: usize = 0;
    let mut i: usize = 1;
    proof {
        assert(counts@.subrange(0, 1).len() == 1);
        assert(spec_winning_choice(counts@.subrange(0, 1)) == 0);
    }
    while i < n
        invariant
            n == counts@.len(),
            1 <= i <= n || (n == 1 && i == 1),
            0 <= win < i,
            win == spec_winning_choice(counts@.subrange(0, i as int)),
        decreases n - i,
    {
        proof {
            assert(counts@.subrange(0, i + 1).drop_last() =~= counts@.subrange(0, i as int));
        }
        if counts[i] >= counts[win] {
            win = i;
        }
        i = i + 1;
    }
    proof {
        assert(counts@.subrange(0, n as int) =~= counts@);
    }
    win
}

/// Helper to determine which hook to execute: the success hook when the
/// outcome passed the threshold, else the failure hook.
pub fn get_active_hook(election: &Election) -> (h: Option<Pubkey>)
    requires
        election.wf(),
    ensures
        h == (if spec_passed(election.vote_counts@, election.total_votes) {
            election.on_success_hook
        } else {
            election.on_failure_hook
        }),
{
    if election.total_votes == 0 {
        return election.on_failure_hook;
    }
    let win = winning_index(&election.vote_counts);
    let max_votes = election.vote_counts[win];
    if max_votes > election.total_votes / 2 {
        election.on_success_hook
    } else {
        election.on_failure_hook
    }
}

/// Execution hook context passed to hook programs.
#[derive(Clone, Copy, Debug)]
pub struct HookContext {
    pub election: Pubkey,
    pub winning_choice: u8,
    pub winning_votes: u64,
    pub total_votes: u64,
    pub passed_threshold: bool,
    pub timestamp: i64,
}

impl HookContext {
    /// The fixed-layout serialization handed to the hook program: the
    /// election key, the winning choice, the winning and total counts in
    /// little-endian, the pass flag as one byte, then the timestamp.
    pub open spec fn spec_serialized(self) -> Seq<u8> {
        self.election@ + seq![self.winning_choice] + spec_u64_to_le_bytes(self.winning_votes)
            + spec_u64_to_le_bytes(self.total_votes) + seq![
            if self.passed_threshold {
                1u8
            } else {
                0u8
            },
        ] + spec_i64_to_le_bytes(self.timestamp)
    }

    /// Serialize this outcome payload into its fixed layout.
    pub fn to_bytes(&self) -> (data: Vec<u8>)
        ensures
            data@ == self.spec_serialized(),
    {
        let mut data: Vec<u8> = Vec::new();
        push_bytes32(&mut data, &self.election.bytes);
        data.push(self.winning_choice);
        let mut wv = u64_to_le_bytes(self.winning_votes);
        data.append(&mut wv);
        let mut tv = u64_to_le_bytes(self.total_votes);
        data.append(&mut tv);
        data.push(if self.passed_threshold {
            1u8
        } else {
            0u8
        });
        let mut ts = u64_to_le_bytes(self.timestamp as u64);
        data.append(&mut ts);
        proof {
            assert(data@ =~= self.spec_serialized());
        }
        data
    }
}

/// Compute the outcome payload for a hook invocation from an election's
/// final counters: the winner (ties to the highest index), its votes, the
/// total, and whether the strict majority threshold was passed.
pub fn build_hook_context(election: &Election, election_key: Pubkey, now: i64) -> (h:
    HookContext)
    requires
        election.wf(),
    ensures
        h.election == election_key,
        h.winning_choice == spec_winning_choice(election.vote_counts@),
        h.winning_votes == election.vote_counts@[spec_winning_choice(
            election.vote_counts@,
        )],
        h.total_votes == election.total_votes,
        h.passed_threshold == spec_passed(election.vote_counts@, election.total_votes),
        h.timestamp == now,
{
    let win = winning_index(&election.vote_counts);
    let max_votes = election.vote_counts[win];
    let passed = election.total_votes > 0 && max_votes > election.total_votes / 2;
    assert(win < 256);
    HookContext {
        election: election_key,
        winning_choice: win as u8,
        winning_votes: max_votes,
        total_votes: election.total_votes,
        passed_threshold: passed,
        timestamp: now,
    }
}

} // verus!
