//! Verification engine for attestation-gated container execution.
//!
//! The library decides whether a container bundle's cryptographic evidence
//! satisfies a configured trust policy: it matches attestation subjects to
//! the claimed image digest, verifies Ed25519 signatures against a trust
//! store, checks transparency-log coverage with signed entry timestamps and
//! RFC 6962 inclusion proofs, and enforces a k-of-n threshold policy.
//! Every decision is a pure function of the bundle, the trust-store
//! snapshot and the current time.

pub mod errors;
pub mod text;
pub mod codec;
pub mod crypto;
pub mod clock;
pub mod scan;
pub mod bundle;
pub mod attestation;
pub mod trust;
pub mod signature;
pub mod merkle;
pub mod translog;
pub mod threshold;
pub mod pipeline;
