//! Cast up to 50 votes as one all-or-nothing operation: every item is
//! checked first, and only when all of them pass is any record mutated.
//! If any single item fails, the whole batch — including all prior items
//! in the same call — is discarded; nothing partially commits.
//!
//! Items interact: a later item is held against the earlier ones, so that
//! two items consuming the same nullifier in the same election fail the
//! batch with AlreadyVoted, and a batch that names the same election in
//! two items is rejected outright — each item carries its own copy of its
//! election's records, and two committed copies of one record could not
//! be written back consistently. An item's nullifier is consumed exactly
//! as supplied; deriving it from (voter, election) is the single-vote
//! path's job.

use vstd::prelude::*;
use crate::VoteInput;
use crate::errors::GovError;
use crate::pubkey::Pubkey;
use crate::state::election::Election;
use crate::state::election::ElectionStatus;
use crate::state::election::same_election_config;
use crate::state::election::lemma_sum_counts_element;
use crate::state::election::lemma_sum_counts_update;
use crate::state::vote::MAX_NULLIFIERS;
use crate::state::vote::NullifierSet;
use crate::state::voter::VoterRegistration;
use crate::utils::bytes32::bytes32_eq;
use vstd::std_specs::vec::vec_index_mut;

verus! {

/// Maximum number of votes in one batch
pub const MAX_BATCH_VOTES: usize = 50;

/// The records one batch item operates on: the election it names, that
/// election's registration record for the caller, and its nullifier
/// ledger.
#[derive(Clone, Debug)]
pub struct BatchVoteAccounts {
    /// The address of the election record
    pub election_key: Pubkey,
    /// The election record itself
    pub election: Election,
    /// The caller's registration record for that election
    pub voter_registration: VoterRegistration,
    /// That election's nullifier ledger
    pub nullifier_set: NullifierSet,
}

/// The first failure of one batch item, if any, in the order the checks
/// run: the records must match the item, the caller must be registered,
/// the election open, the choice valid, the nullifier fresh, and the
/// structural limits not yet reached.
pub open spec fn batch_item_check(
    a: BatchVoteAccounts,
    v: VoteInput,
    voter: Pubkey,
    now: i64,
) -> Result<(), GovError> {
    if a.election_key@ != v.election@ {
        Err(GovError::InvalidBatchVote)
    } else if a.voter_registration.wallet@ != voter@ {
        Err(GovError::NotRegistered)
    } else if a.voter_registration.election@ != v.election@ {
        Err(GovError::NotRegistered)
    } else if now < a.election.start_time {
        Err(GovError::ElectionNotStarted)
    } else if now > a.election.end_time {
        Err(GovError::ElectionEnded)
    } else if a.election.status == ElectionStatus::Ended {
        Err(GovError::ElectionEnded)
    } else if !(a.election.status == ElectionStatus::Active || (a.election.status
        == ElectionStatus::Pending && now >= a.election.start_time)) {
        Err(GovError::ElectionNotActive)
    } else if v.choice as int >= a.election.candidates@.len() {
        Err(GovError::InvalidChoice)
    } else if a.nullifier_set.spec_contains(v.nullifier@) {
        Err(GovError::AlreadyVoted)
    } else if a.election.total_votes == u64::MAX {
        Err(GovError::ArithmeticOverflow)
    } else if a.nullifier_set.used_nullifiers@.len() >= MAX_NULLIFIERS {
        Err(GovError::NullifierSetFull)
    } else {
        Ok(())
    }
}

/// Whether an earlier item of the batch consumes the same nullifier in
/// the same election as item `k`: a replay inside the batch.
pub open spec fn batch_replays_earlier(votes: Seq<VoteInput>, k: int) -> bool {
    exists|i: int|
        0 <= i < k && votes[i].election@ == votes[k].election@ && votes[i].nullifier@
            == votes[k].nullifier@
}

/// Whether an earlier item of the batch names the same election as item
/// `k`.
pub open spec fn batch_repeats_election(votes: Seq<VoteInput>, k: int) -> bool {
    exists|i: int| 0 <= i < k && votes[i].election@ == votes[k].election@
}

/// The first failure of item `k` held against its own records and against
/// the earlier items: its own checks first, then a replay of an earlier
/// item's nullifier, then a second item on an election already named.
pub open spec fn batch_position_check(
    accounts: Seq<BatchVoteAccounts>,
    votes: Seq<VoteInput>,
    voter: Pubkey,
    now: i64,
    k: int,
) -> Result<(), GovError> {
    if batch_item_check(accounts[k], votes[k], voter, now) is Err {
        batch_item_check(accounts[k], votes[k], voter, now)
    } else if batch_replays_earlier(votes, k) {
        Err(GovError::AlreadyVoted)
    } else if batch_repeats_election(votes, k) {
        Err(GovError::InvalidBatchVote)
    } else {
        Ok(())
    }
}

/// The first failure among the items from position `k` on, if any; an
/// item without its records fails as a malformed batch.
pub open spec fn batch_check_from(
    accounts: Seq<BatchVoteAccounts>,
    votes: Seq<VoteInput>,
    voter: Pubkey,
    now: i64,
    k: int,
) -> Result<(), GovError>
    recommends
        0 <= k,
    decreases votes.len() - k,
{
    if k >= votes.len() {
        Ok(())
    } else if k >= accounts.len() {
        Err(GovError::InvalidBatchVote)
    } else if batch_position_check(accounts, votes, voter, now, k) is Err {
        batch_position_check(accounts, votes, voter, now, k)
    } else {
        batch_check_from(accounts, votes, voter, now, k + 1)
    }
}

/// The first failure of the whole batch, if any: the batch must hold 1 to
/// 50 items, and every item must pass its checks.
pub open spec fn cast_batch_check(
    accounts: Seq<BatchVoteAccounts>,
    votes: Seq<VoteInput>,
    voter: Pubkey,
    now: i64,
) -> Result<(), GovError> {
    if !(1 <= votes.len() <= MAX_BATCH_VOTES) {
        Err(GovError::InvalidBatchVote)
    } else {
        batch_check_from(accounts, votes, voter, now, 0)
    }
}

/// A batch whose item `j` replays an earlier item's nullifier cannot pass
/// the checks from any position at or before `j`.
proof fn lemma_batch_check_from_replay_err(
    accounts: Seq<BatchVoteAccounts>,
    votes: Seq<VoteInput>,
    voter: Pubkey,
    now: i64,
    k: int,
    j: int,
)
    requires
        0 <= k <= j < votes.len(),
        batch_replays_earlier(votes, j),
    ensures
        batch_check_from(accounts, votes, voter, now, k) is Err,
    decreases j - k,
{
    if k < accounts.len() && batch_position_check(accounts, votes, voter, now, k) is Ok {
        lemma_batch_check_from_replay_err(accounts, votes, voter, now, k + 1, j);
    }
}

/// When every position before `j` passes, the batch's first error is
/// position `j`'s error.
proof fn lemma_batch_check_from_stops(
    accounts: Seq<BatchVoteAccounts>,
    votes: Seq<VoteInput>,
    voter: Pubkey,
    now: i64,
    k: int,
    j: int,
)
    requires
        0 <= k <= j < votes.len(),
        j < accounts.len(),
        forall|p: int|
            0 <= p < j ==> #[trigger] batch_position_check(accounts, votes, voter, now, p)
                is Ok,
        batch_position_check(accounts, votes, voter, now, j) is Err,
    ensures
        batch_check_from(accounts, votes, voter, now, k) == batch_position_check(
            accounts,
            votes,
            voter,
            now,
            j,
        ),
    decreases j - k,
{
    if k < j {
        lemma_batch_check_from_stops(accounts, votes, voter, now, k + 1, j);
    }
}

/// No double count inside a batch: when two items consume the same
/// nullifier in the same election, the whole batch fails — so, by the
/// handler's contract, nothing commits and the pair is counted at most
/// once. It fails precisely with AlreadyVoted when the batch is
/// well-sized, every position before the repeated item passes, and the
/// repeated item's own record checks pass.
pub proof fn lemma_batch_no_double_count(
    accounts: Seq<BatchVoteAccounts>,
    votes: Seq<VoteInput>,
    voter: Pubkey,
    now: i64,
    i: int,
    j: int,
)
    requires
        0 <= i < j < votes.len(),
        votes[i].election@ == votes[j].election@,
        votes[i].nullifier@ == votes[j].nullifier@,
    ensures
        cast_batch_check(accounts, votes, voter, now) is Err,
        (votes.len() <= MAX_BATCH_VOTES && j < accounts.len() && (forall|p: int|
            0 <= p < j ==> #[trigger] batch_position_check(accounts, votes, voter, now, p)
                is Ok) && batch_item_check(accounts[j], votes[j], voter, now) is Ok)
            ==> cast_batch_check(accounts, votes, voter, now) == Err::<(), GovError>(
            GovError::AlreadyVoted,
        ),
{
    assert(batch_replays_earlier(votes, j));
    if 1 <= votes.len() <= MAX_BATCH_VOTES {
        lemma_batch_check_from_replay_err(accounts, votes, voter, now, 0, j);
        if j < accounts.len() && (forall|p: int|
            0 <= p < j ==> #[trigger] batch_position_check(accounts, votes, voter, now, p)
                is Ok) && batch_item_check(accounts[j], votes[j], voter, now) is Ok {
            assert(batch_position_check(accounts, votes, voter, now, j) == Err::<
                (),
                GovError,
            >(GovError::AlreadyVoted));
            lemma_batch_check_from_stops(accounts, votes, voter, now, 0, j);
        }
    }
}

/// How one committed batch item changes its records: its election's
/// counter for the chosen candidate and its total go up by one, it is
/// promoted to Active, and its ledger consumes the item's nullifier.
pub open spec fn batch_item_updated(
    a_old: BatchVoteAccounts,
    a_new: BatchVoteAccounts,
    v: VoteInput,
) -> bool {
    &&& a_new.election_key@ == a_old.election_key@
    &&& a_new.voter_registration == a_old.voter_registration
    &&& same_election_config(a_new.election, a_old.election)
    &&& a_new.election.voter_merkle_root@ == a_old.election.voter_merkle_root@
    &&& a_new.election.total_registered == a_old.election.total_registered
    &&& a_new.election.vote_counts@ == a_old.election.vote_counts@.update(
        v.choice as int,
        (a_old.election.vote_counts@[v.choice as int] + 1) as u64,
    )
    &&& a_new.election.total_votes == a_old.election.total_votes + 1
    &&& a_new.election.status == ElectionStatus::Active
    &&& a_new.nullifier_set.election@ == a_old.nullifier_set.election@
    &&& a_new.nullifier_set.bump == a_old.nullifier_set.bump
    &&& a_new.nullifier_set.used_nullifiers@ == a_old.nullifier_set.used_nullifiers@.push(
        v.nullifier,
    )
}

/// Commit one already-checked batch item to its records.
fn apply_batch_item(a: &mut BatchVoteAccounts, v: &VoteInput)
    requires
        old(a).election.wf(),
        (v.choice as int) < old(a).election.candidates@.len(),
        old(a).election.total_votes < u64::MAX,
        old(a).nullifier_set.used_nullifiers@.len() < MAX_NULLIFIERS,
    ensures
        batch_item_updated(*old(a), *final(a), *v),
        final(a).election.wf(),
{
    let c = v.choice as usize;
    proof {
        lemma_sum_counts_element(a.election.vote_counts@, c as int);
    }
    let current = a.election.vote_counts[c];
    a.election.vote_counts.set(c, current + 1);
    proof {
        lemma_sum_counts_update(old(a).election.vote_counts@, c as int, (current + 1) as u64);
    }
    a.election.total_votes = a.election.total_votes + 1;
    a.election.status = ElectionStatus::Active;
    a.nullifier_set.used_nullifiers.push(v.nullifier);
}

/// Process a batch of votes as one atomic transaction: on any failure the
/// whole batch is discarded and every record is exactly as before; on
/// success every item's records are updated, in order.
pub fn handler(
    accounts: &mut Vec<BatchVoteAccounts>,
    votes: &Vec<VoteInput>,
    voter: Pubkey,
    now: i64,
) -> (res: Result<(), GovError>)
    requires
        forall|k: int|
            0 <= k < old(accounts)@.len() ==> #[trigger] old(accounts)@[k].election.wf(),
    ensures
        res == cast_batch_check(old(accounts)@, votes@, voter, now),
        res is Err ==> final(accounts)@ == old(accounts)@,
        res is Ok ==> {
            &&& final(accounts)@.len() == old(accounts)@.len()
            &&& (forall|k: int|
                0 <= k < votes@.len() ==> batch_item_updated(
                    old(accounts)@[k],
                    #[trigger] final(accounts)@[k],
                    votes@[k],
                ))
            &&& (forall|k: int|
                votes@.len() <= k < old(accounts)@.len() ==> #[trigger] final(accounts)@[k]
                    == old(accounts)@[k])
        },
        forall|k: int|
            0 <= k < final(accounts)@.len() ==> #[trigger] final(accounts)@[k].election.wf(),
{
    let vn = votes.len();
    if !(vn >= 1 && vn <= MAX_BATCH_VOTES) {
        return Err(GovError::InvalidBatchVote);
    }
    let an = accounts.len();

    // Phase one: check every item; nothing is mutated yet, so a failure
    // here discards the batch with every record untouched.
    let mut k: usize = 0;
    while k < vn
        invariant
            vn == votes@.len(),
            1 <= vn <= MAX_BATCH_VOTES,
            an == accounts@.len(),
            accounts@ == old(accounts)@,
            k <= vn,
            k <= an,
            forall|j: int|
                0 <= j < accounts@.len() ==> #[trigger] accounts@[j].election.wf(),
            batch_check_from(accounts@, votes@, voter, now, 0) == batch_check_from(
                accounts@,
                votes@,
                voter,
                now,
                k as int,
            ),
            forall|j: int|
                0 <= j < k ==> #[trigger] batch_position_check(
                    accounts@,
                    votes@,
                    voter,
                    now,
                    j,
                ) is Ok,
        decreases vn - k,
    {
        if k >= an {
            return Err(GovError::InvalidBatchVote);
        }
        let a = &accounts[k];
        let v = &votes[k];
        if !(a.election_key == v.election) {
            return Err(GovError::InvalidBatchVote);
        }
        if !(a.voter_registration.wallet == voter) {
            return Err(GovError::NotRegistered);
        }
        if !(a.voter_registration.election == v.election) {
            return Err(GovError::NotRegistered);
        }
        if now < a.election.start_time {
            return Err(GovError::ElectionNotStarted);
        }
        if now > a.election.end_time {
            return Err(GovError::ElectionEnded);
        }
        if a.election.status == ElectionStatus::Ended {
            return Err(GovError::ElectionEnded);
        }
        let active_ok = a.election.status == ElectionStatus::Active || (a.election.status
            == ElectionStatus::Pending && now >= a.election.start_time);
        if !active_ok {
            return Err(GovError::ElectionNotActive);
        }
        if v.choice as usize >= a.election.candidates.len() {
            return Err(GovError::InvalidChoice);
        }
        if a.nullifier_set.is_used(&v.nullifier) {
            return Err(GovError::AlreadyVoted);
        }
        if a.election.total_votes == u64::MAX {
            return Err(GovError::ArithmeticOverflow);
        }
        if a.nullifier_set.used_nullifiers.len() >= MAX_NULLIFIERS {
            return Err(GovError::NullifierSetFull);
        }

        // Hold this item against the earlier ones: a repeated nullifier in
        // the same election is a replay, and a repeated election could not
        // be committed consistently across two copies of its records.
        let mut same_nullifier: bool = false;
        let mut same_election: bool = false;
        let mut i: usize = 0;
        while i < k
            invariant
                i <= k,
                k < vn,
                vn == votes@.len(),
                same_nullifier <==> (exists|p: int|
                    0 <= p < i && votes@[p].election@ == votes@[k as int].election@
                        && votes@[p].nullifier@ == votes@[k as int].nullifier@),
                same_election <==> (exists|p: int|
                    0 <= p < i && votes@[p].election@ == votes@[k as int].election@),
            decreases k - i,
        {
            if votes[i].election == votes[k].election {
                same_election = true;
                if bytes32_eq(&votes[i].nullifier, &votes[k].nullifier) {
                    same_nullifier = true;
                    proof {
                        assert(votes@[i as int].election@ == votes@[k as int].election@
                            && votes@[i as int].nullifier@ == votes@[k as int].nullifier@);
                    }
                }
                proof {
                    assert(votes@[i as int].election@ == votes@[k as int].election@);
                }
            }
            i = i + 1;
        }
        if same_nullifier {
            return Err(GovError::AlreadyVoted);
        }
        if same_election {
            return Err(GovError::InvalidBatchVote);
        }
        k = k + 1;
    }

    // Phase two: every item passed, so committing them cannot fail.
    let mut k: usize = 0;
    while k < vn
        invariant
            vn == votes@.len(),
            vn <= accounts@.len(),
            accounts@.len() == old(accounts)@.len(),
            k <= vn,
            forall|j: int|
                k <= j < accounts@.len() ==> #[trigger] accounts@[j] == old(accounts)@[j],
            forall|j: int|
                0 <= j < k ==> batch_item_updated(
                    old(accounts)@[j],
                    #[trigger] accounts@[j],
                    votes@[j],
                ),
            forall|j: int|
                (k <= j < vn) ==> #[trigger] batch_position_check(
                    old(accounts)@,
                    votes@,
                    voter,
                    now,
                    j,
                ) is Ok,
            forall|j: int|
                0 <= j < accounts@.len() ==> #[trigger] accounts@[j].election.wf(),
        decreases vn - k,
    {
        let v = &votes[k];
        proof {
            assert(accounts@[k as int] == old(accounts)@[k as int]);
            assert(batch_position_check(old(accounts)@, votes@, voter, now, k as int) is Ok);
            assert(batch_item_check(old(accounts)@[k as int], votes@[k as int], voter, now)
                is Ok);
        }
        let entry = vec_index_mut(accounts, k);
        apply_batch_item(entry, v);
        k = k + 1;
    }
    Ok(())
}

} // verus!
