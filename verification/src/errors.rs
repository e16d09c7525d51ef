//! Error taxonomy for every operation of the governance core.
//!
//! Every check in the library is fail-fast: the first violated condition
//! aborts the whole operation with one of these kinds, and no partial
//! effects persist.

use vstd::prelude::*;

verus! {

/// The error kinds reported by the governance operations.
#[derive(Clone, Copy, Debug, PartialEq, Eq, Structural)]
pub enum GovError {
    /// Election has not started yet
    ElectionNotStarted,
    /// Election has already ended
    ElectionEnded,
    /// Election is not active
    ElectionNotActive,
    /// Invalid candidate choice
    InvalidChoice,
    /// Voter has already voted in this election
    AlreadyVoted,
    /// Voter is not registered for this election
    NotRegistered,
    /// Invalid attestation
    InvalidAttestation,
    /// Attestation has expired
    ExpiredAttestation,
    /// Attestation does not match voter
    AttestationMismatch,
    /// Invalid merkle proof
    InvalidMerkleProof,
    /// Too many candidates (max 10)
    TooManyCandidates,
    /// Candidate name too long (max 50 chars)
    CandidateNameTooLong,
    /// Invalid time range (end must be after start)
    InvalidTimeRange,
    /// Election start time is in the past
    StartTimeInPast,
    /// Only authority can perform this action
    Unauthorized,
    /// Nullifier set is full
    NullifierSetFull,
    /// Invalid nullifier
    InvalidNullifier,
    /// Arithmetic overflow
    ArithmeticOverflow,
    /// Invalid batch vote operation
    InvalidBatchVote,
    /// Election has already started
    ElectionAlreadyStarted,
    /// Hook program is not an invocable handler
    InvalidHookProgram,
    /// Privacy program is not an invocable handler
    InvalidPrivacyProgram,
    /// Private voting is not enabled for this election
    PrivacyNotEnabled,
    /// Caller is not the registered privacy layer
    UnauthorizedPrivacyLayer,
    /// Tally length does not match the candidate list
    InvalidTally,
}

} // verus!
