//! Trusted boundary to the cryptographic primitives: SHA-256 digests,
//! Ed25519 signature verification, and base64 decoding.
//!
//! Each wrapper names the outside function it relies on. The digest and the
//! verification predicate are functions of their byte arguments alone, so
//! their results are given uninterpreted names that the rest of the library
//! reasons about; nothing here re-states the algorithms themselves.

use vstd::prelude::*;

use base64::Engine;
use ed25519_dalek::{Signature, Verifier, VerifyingKey};
use sha2::{Digest, Sha256};

verus! {

/// The SHA-256 digest of a byte sequence.
pub uninterp spec fn spec_sha256(data: Seq<u8>) -> Seq<u8>;

/// Relies on sha2's `Sha256`: the digest is a function of the input bytes
/// alone and is 32 bytes long.
#[verifier::external_body]
pub fn sha256(data: &[u8]) -> (r: Vec<u8>)
    ensures
        r@ == spec_sha256(data@),
        r@.len() == 32,
{
    let mut hasher = Sha256::new();
    hasher.update(data);
    hasher.finalize().to_vec()
}

/// Whether `signature` is a valid Ed25519 signature by the public key
/// `public_key` over `message`: the key parses as a curve point and the
/// verification equation holds.
pub uninterp spec fn spec_ed25519_valid(
    public_key: Seq<u8>,
    message: Seq<u8>,
    signature: Seq<u8>,
) -> bool;

/// Relies on ed25519_dalek's `VerifyingKey::from_bytes` and
/// `Verifier::verify`: both are deterministic in the key, message and
/// signature bytes; a key that is no valid curve point never verifies.
#[verifier::external_body]
pub fn ed25519_verify(public_key: &[u8], message: &[u8], signature: &[u8]) -> (r: bool)
    requires
        public_key@.len() == 32,
        signature@.len() == 64,
    ensures
        r == spec_ed25519_valid(public_key@, message@, signature@),
{
    let key_bytes: [u8; 32] = match public_key.try_into() {
        Ok(b) => b,
        Err(_) => return false,
    };
    let sig_bytes: [u8; 64] = match signature.try_into() {
        Ok(b) => b,
        Err(_) => return false,
    };
    let key = match VerifyingKey::from_bytes(&key_bytes) {
        Ok(k) => k,
        Err(_) => return false,
    };
    key.verify(message, &Signature::from_bytes(&sig_bytes)).is_ok()
}

/// The standard-alphabet, padded base64 decoding of a string: `Some` of
/// the decoded bytes exactly when the input is well-formed.
pub uninterp spec fn spec_base64_decode(s: Seq<char>) -> Option<Seq<u8>>;

/// Relies on base64's `Engine::decode` with the `STANDARD` engine: the
/// result is a function of the input characters alone.
#[verifier::external_body]
pub fn base64_decode(s: &str) -> (r: Option<Vec<u8>>)
    ensures
        match r {
            Some(v) => spec_base64_decode(s@) == Some(v@),
            None => spec_base64_decode(s@) is None,
        },
{
    base64::engine::general_purpose::STANDARD.decode(s).ok()
}

} // verus!
