//! The election record: candidate list, per-candidate counters, time
//! window, lifecycle status and the eligibility commitment root.

use vstd::prelude::*;
use crate::pubkey::Pubkey;

verus! {

/// Maximum number of candidates allowed
pub const MAX_CANDIDATES: usize = 10;

/// Maximum length of a candidate name, in characters
pub const MAX_CANDIDATE_NAME_LEN: usize = 50;

/// Status of an election
#[derive(Clone, Copy, Debug, PartialEq, Eq, Structural)]
pub enum ElectionStatus {
    /// Election has been created but not yet started
    Pending,
    /// Election is currently active and accepting votes
    Active,
    /// Election has ended, no more votes accepted
    Ended,
    /// Election has been cancelled by authority
    Cancelled,
}

impl Default for ElectionStatus {
    /// A fresh election starts out pending.
    fn default() -> (s: ElectionStatus)
        ensures
            s == ElectionStatus::Pending,
    {
        ElectionStatus::Pending
    }
}

/// Sum of a sequence of counters, as an unbounded integer.
pub open spec fn sum_counts(s: Seq<u64>) -> int
    decreases s.len(),
{
    if s.len() == 0 {
        0
    } else {
        sum_counts(s.drop_last()) + s.last()
    }
}

/// The sum of unsigned counters is never negative.
pub proof fn lemma_sum_counts_nonneg(s: Seq<u64>)
    ensures
        sum_counts(s) >= 0,
    decreases s.len(),
{
    if s.len() > 0 {
        lemma_sum_counts_nonneg(s.drop_last());
    }
}

/// Replacing one counter changes the sum by exactly the difference.
pub proof fn lemma_sum_counts_update(s: Seq<u64>, i: int, v: u64)
    requires
        0 <= i < s.len(),
    ensures
        sum_counts(s.update(i, v)) == sum_counts(s) - s[i] + v,
    decreases s.len(),
{
    if i == s.len() - 1 {
        assert(s.update(i, v).drop_last() =~= s.drop_last());
    } else {
        assert(s.update(i, v).drop_last() =~= s.drop_last().update(i, v));
        lemma_sum_counts_update(s.drop_last(), i, v);
    }
}

/// Each counter is bounded by the sum of all of them.
pub proof fn lemma_sum_counts_element(s: Seq<u64>, i: int)
    requires
        0 <= i < s.len(),
    ensures
        s[i] <= sum_counts(s),
    decreases s.len(),
{
    lemma_sum_counts_nonneg(s.drop_last());
    if i < s.len() - 1 {
        lemma_sum_counts_element(s.drop_last(), i);
    }
}

/// A sequence of zeroed counters sums to zero.
pub proof fn lemma_sum_counts_zero(s: Seq<u64>)
    requires
        forall|i: int| 0 <= i < s.len() ==> s[i] == 0,
    ensures
        sum_counts(s) == 0,
    decreases s.len(),
{
    if s.len() > 0 {
        lemma_sum_counts_zero(s.drop_last());
    }
}

/// Extending a prefix by one element adds that element to its sum.
pub proof fn lemma_sum_counts_prefix_step(s: Seq<u64>, i: int)
    requires
        0 <= i < s.len(),
    ensures
        sum_counts(s.subrange(0, i + 1)) == sum_counts(s.subrange(0, i)) + s[i],
{
    assert(s.subrange(0, i + 1).drop_last() =~= s.subrange(0, i));
}

/// The sum of a prefix never exceeds the sum of the whole sequence.
pub proof fn lemma_sum_counts_prefix_le(s: Seq<u64>, i: int)
    requires
        0 <= i <= s.len(),
    ensures
        sum_counts(s.subrange(0, i)) <= sum_counts(s),
    decreases s.len() - i,
{
    if i == s.len() {
        assert(s.subrange(0, i) =~= s);
    } else {
        lemma_sum_counts_prefix_step(s, i);
        lemma_sum_counts_prefix_le(s, i + 1);
    }
}

/// Election record - the authoritative state of one vote.
#[derive(Clone, Debug)]
pub struct Election {
    /// Authority that can manage the election
    pub authority: Pubkey,
    /// List of candidates/options (max 10 candidates, 50 chars each)
    pub candidates: Vec<String>,
    /// Vote counts for each candidate (parallel to candidates array)
    pub vote_counts: Vec<u64>,
    /// Total number of votes cast
    pub total_votes: u64,
    /// Merkle root of registered voters (compressed tree)
    pub voter_merkle_root: [u8; 32],
    /// Unix timestamp when voting starts
    pub start_time: i64,
    /// Unix timestamp when voting ends
    pub end_time: i64,
    /// Current status of the election
    pub status: ElectionStatus,
    /// Whether voter registrations use the compressed commitment scheme
    pub use_compression: bool,
    /// Merkle tree account for compressed voter registrations, or the
    /// default key when compression is disabled
    pub merkle_tree: Pubkey,
    /// Total number of registered voters
    pub total_registered: u64,
    /// Bump seed for the record's derived address
    pub bump: u8,
    /// Whether the privacy-tally gateway is enabled
    pub privacy_enabled: bool,
    /// The external privacy layer allowed to overwrite the tally
    pub privacy_layer_program: Pubkey,
    /// Hook invoked when the outcome passes the threshold
    pub on_success_hook: Option<Pubkey>,
    /// Hook invoked when the outcome fails the threshold
    pub on_failure_hook: Option<Pubkey>,
}

/// The fields of an election that no vote, registration or tally hand-off
/// ever changes: who owns it, what is on the ballot, and its window.
pub open spec fn same_election_config(a: Election, b: Election) -> bool {
    &&& a.authority@ == b.authority@
    &&& a.candidates@ == b.candidates@
    &&& a.start_time == b.start_time
    &&& a.end_time == b.end_time
    &&& a.use_compression == b.use_compression
    &&& a.merkle_tree@ == b.merkle_tree@
    &&& a.bump == b.bump
    &&& a.privacy_enabled == b.privacy_enabled
    &&& a.privacy_layer_program@ == b.privacy_layer_program@
    &&& a.on_success_hook == b.on_success_hook
    &&& a.on_failure_hook == b.on_failure_hook
}

impl Election {
    /// Well-formedness: the candidate list is within bounds, the counters
    /// are index-aligned with it, and they always sum to `total_votes`.
    pub open spec fn wf(self) -> bool {
        &&& self.vote_counts@.len() == self.candidates@.len()
        &&& 1 <= self.candidates@.len() <= MAX_CANDIDATES
        &&& (forall|i: int|
            0 <= i < self.candidates@.len() ==> self.candidates@[i]@.len()
                <= MAX_CANDIDATE_NAME_LEN)
        &&& sum_counts(self.vote_counts@) == self.total_votes
        &&& self.start_time < self.end_time
    }
}

} // verus!
