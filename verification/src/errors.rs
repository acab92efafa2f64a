//! Error kinds carried as typed values from the detecting check up to the
//! pipeline, and their mapping to process exit codes.

use vstd::prelude::*;

verus! {

/// Every way a verification can fail. Each variant maps one-to-one to a
/// protocol reason code.
#[derive(Clone, Copy, Debug, PartialEq, Eq, Structural)]
pub enum ErrorKind {
    /// The attestation file is absent from the bundle.
    MissingAttestation,
    /// JSON parse error, wrong media type, hex or base64 decode failure, or
    /// a length violation.
    MalformedBundle,
    /// Some attestation subject digest differs from the claimed image digest.
    SubjectMismatch,
    /// A DSSE signature references a key identifier that the trust store
    /// does not hold.
    UnknownKey,
    /// The key's validity window ended before the current time.
    ExpiredKey,
    /// The key's validity window starts after the current time.
    KeyNotYetValid,
    /// Ed25519 verification failed, or a key or signature has the wrong
    /// byte length.
    InvalidSignature,
    /// The trusted key's algorithm tag is not `ed25519`.
    UnsupportedAlgorithm,
    /// Fewer than two distinct transparency logs cover the bundle.
    InsufficientLogCoverage,
    /// A signed entry timestamp failed signature verification or claims a
    /// timestamp too far in the future.
    SetInvalid,
    /// A Merkle inclusion proof failed a structural check or its recomputed
    /// root differs from the claimed root.
    LogProofInvalid,
    /// The number of distinct signing group members is below the group's
    /// threshold.
    ThresholdNotMet,
    /// The trust-store file could not be decoded.
    MalformedTrustStore,
}

/// A verification failure: the kind that decides the protocol reason code,
/// and a human-readable message.
#[derive(Debug)]
pub struct VerifyError {
    pub kind: ErrorKind,
    pub message: String,
}

impl VerifyError {
    /// Pair a kind with its message.
    pub fn new(kind: ErrorKind, message: String) -> (r: VerifyError)
        ensures
            r.kind == kind,
            r.message@ == message@,
    {
        VerifyError { kind, message }
    }
}

/// Exit code of a run whose verification passed, or whose failure the mode
/// overrode.
pub const EXIT_SUCCESS: u8 = 0;

/// Exit code of a rejected verification.
pub const EXIT_VERIFY_FAILED: u8 = 1;

/// Exit code of a structurally invalid bundle or trust store.
pub const EXIT_MALFORMED: u8 = 2;

/// The exit code a kind selects when a strict-mode verification fails:
/// structural corruption is told apart from a trust decision.
pub open spec fn spec_exit_code_for_kind(kind: ErrorKind) -> u8 {
    match kind {
        ErrorKind::MalformedBundle => EXIT_MALFORMED,
        ErrorKind::MissingAttestation => EXIT_MALFORMED,
        ErrorKind::MalformedTrustStore => EXIT_MALFORMED,
        _ => EXIT_VERIFY_FAILED,
    }
}

/// Map a failure kind to the process exit code it selects under a
/// rejecting mode.
pub fn exit_code_for_kind(kind: ErrorKind) -> (r: u8)
    ensures
        r == spec_exit_code_for_kind(kind),
{
    match kind {
        ErrorKind::MalformedBundle => EXIT_MALFORMED,
        ErrorKind::MissingAttestation => EXIT_MALFORMED,
        ErrorKind::MalformedTrustStore => EXIT_MALFORMED,
        _ => EXIT_VERIFY_FAILED,
    }
}

} // verus!
