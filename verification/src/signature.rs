//! The signature verifier: one Ed25519 signature against one trusted key
//! with its validity window, and the pipeline pass that checks every
//! signature of every attestation's DSSE envelope.

use vstd::prelude::*;

use crate::attestation::{Attestation, AttestationBundle, DSSESignature};
use crate::crypto::{ed25519_verify, spec_ed25519_valid};
use crate::errors::{ErrorKind, VerifyError};
use crate::scan::{lemma_first_some_found, lemma_first_some_none, spec_first_some};
use crate::text::str_eq;
use crate::trust::{spec_get_key, TrustStore, TrustedKey};

verus! {

/// The message of an algorithm rejection.
pub open spec fn spec_unsupported_algorithm_msg(keyid: Seq<char>) -> Seq<char> {
    "unsupported algorithm for key "@ + keyid
}

/// The message of a public-key length rejection.
pub open spec fn spec_key_length_msg(keyid: Seq<char>) -> Seq<char> {
    "invalid public key length for key "@ + keyid
}

/// The message of a signature length rejection.
pub open spec fn spec_sig_length_msg(keyid: Seq<char>) -> Seq<char> {
    "invalid signature length for key "@ + keyid
}

/// The message of a not-yet-valid key rejection.
pub open spec fn spec_key_not_yet_valid_msg(keyid: Seq<char>) -> Seq<char> {
    "key not yet valid: "@ + keyid
}

/// The message of an expired key rejection.
pub open spec fn spec_expired_key_msg(keyid: Seq<char>) -> Seq<char> {
    "expired key: "@ + keyid
}

/// The message of a failed Ed25519 verification.
pub open spec fn spec_bad_signature_msg(keyid: Seq<char>) -> Seq<char> {
    "signature verification failed for key "@ + keyid
}

/// The message of an unknown key identifier.
pub open spec fn spec_unknown_key_msg(keyid: Seq<char>) -> Seq<char> {
    "unknown key: "@ + keyid
}

/// What the signature verifier rejects, in checking order: the algorithm
/// tag, the key and signature lengths, the validity window against `now`,
/// and the Ed25519 equation over the exact payload bytes.
pub open spec fn spec_signature_error(
    payload: Seq<u8>,
    sig: Seq<u8>,
    key: TrustedKey,
    now: i64,
) -> Option<(ErrorKind, Seq<char>)> {
    if key.algorithm@ != "ed25519"@ {
        Some((ErrorKind::UnsupportedAlgorithm, spec_unsupported_algorithm_msg(key.keyid@)))
    } else if key.key_bytes@.len() != 32 {
        Some((ErrorKind::InvalidSignature, spec_key_length_msg(key.keyid@)))
    } else if sig.len() != 64 {
        Some((ErrorKind::InvalidSignature, spec_sig_length_msg(key.keyid@)))
    } else if key.valid_from matches Some(vf) && now < vf {
        Some((ErrorKind::KeyNotYetValid, spec_key_not_yet_valid_msg(key.keyid@)))
    } else if key.valid_until matches Some(vu) && now > vu {
        Some((ErrorKind::ExpiredKey, spec_expired_key_msg(key.keyid@)))
    } else if !spec_ed25519_valid(key.key_bytes@, payload, sig) {
        Some((ErrorKind::InvalidSignature, spec_bad_signature_msg(key.keyid@)))
    } else {
        None
    }
}

fn keyid_message(prefix: &str, keyid: &str) -> (r: String)
    ensures
        r@ == prefix@ + keyid@,
{
    let mut msg = String::from_str(prefix);
    msg.append(keyid);
    msg
}

/// Verify one signature against one trusted key: the algorithm must be
/// `ed25519`, the lengths exact, `now` inside the validity window, and
/// the signature valid over the exact payload bytes.
pub fn verify_signature(payload: &Vec<u8>, sig: &Vec<u8>, key: &TrustedKey, now: i64) -> (r: Result<
    (),
    VerifyError,
>)
    ensures
        r is Ok <==> spec_signature_error(payload@, sig@, *key, now) is None,
        r matches Err(e) ==> Some((e.kind, e.message@)) == spec_signature_error(
            payload@,
            sig@,
            *key,
            now,
        ),
{
    if !str_eq(key.algorithm.as_str(), "ed25519") {
        return Err(VerifyError::new(
            ErrorKind::UnsupportedAlgorithm,
            keyid_message("unsupported algorithm for key ", key.keyid.as_str()),
        ));
    }
    if key.key_bytes.len() != 32 {
        return Err(VerifyError::new(
            ErrorKind::InvalidSignature,
            keyid_message("invalid public key length for key ", key.keyid.as_str()),
        ));
    }
    if sig.len() != 64 {
        return Err(VerifyError::new(
            ErrorKind::InvalidSignature,
            keyid_message("invalid signature length for key ", key.keyid.as_str()),
        ));
    }
    match key.valid_from {
        Some(vf) if now < vf => {
            return Err(VerifyError::new(
                ErrorKind::KeyNotYetValid,
                keyid_message("key not yet valid: ", key.keyid.as_str()),
            ));
        },
        _ => {},
    }
    match key.valid_until {
        Some(vu) if now > vu => {
            return Err(VerifyError::new(
                ErrorKind::ExpiredKey,
                keyid_message("expired key: ", key.keyid.as_str()),
            ));
        },
        _ => {},
    }
    if !ed25519_verify(key.key_bytes.as_slice(), payload.as_slice(), sig.as_slice()) {
        return Err(VerifyError::new(
            ErrorKind::InvalidSignature,
            keyid_message("signature verification failed for key ", key.keyid.as_str()),
        ));
    }
    Ok(())
}

/// Verify a raw Ed25519 signature: exact byte lengths, then the equation
/// itself. Key metadata (algorithm tag, validity window) is the caller's
/// concern.
pub fn verify_ed25519_signature(payload: &[u8], signature: &[u8], public_key_bytes: &[u8]) -> (r:
    Result<(), VerifyError>)
    ensures
        r is Ok <==> public_key_bytes@.len() == 32 && signature@.len() == 64
            && spec_ed25519_valid(public_key_bytes@, payload@, signature@),
        r matches Err(e) ==> e.kind == ErrorKind::InvalidSignature,
{
    if public_key_bytes.len() != 32 {
        return Err(VerifyError::new(
            ErrorKind::InvalidSignature,
            String::from_str("invalid public key length (expected 32 bytes)"),
        ));
    }
    if signature.len() != 64 {
        return Err(VerifyError::new(
            ErrorKind::InvalidSignature,
            String::from_str("invalid signature length (expected 64 bytes)"),
        ));
    }
    if !ed25519_verify(public_key_bytes, payload, signature) {
        return Err(VerifyError::new(
            ErrorKind::InvalidSignature,
            String::from_str("signature verification failed"),
        ));
    }
    Ok(())
}

/// The scan over one envelope's signatures: the key must resolve, then
/// the signature verifier decides.
pub open spec fn spec_envelope_sig_scan(ts: TrustStore, now: i64, payload: Seq<u8>) -> spec_fn(
    DSSESignature,
) -> Option<(ErrorKind, Seq<char>)> {
    |s: DSSESignature|
        match spec_get_key(ts, s.keyid@) {
            None => Some((ErrorKind::UnknownKey, spec_unknown_key_msg(s.keyid@))),
            Some(k) => spec_signature_error(payload, s.sig@, k, now),
        }
}

/// The scan over attestations: the envelope must be present, then every
/// signature inside it must verify.
pub open spec fn spec_attestation_sig_scan(ts: TrustStore, now: i64) -> spec_fn(Attestation)
    -> Option<(ErrorKind, Seq<char>)> {
    |att: Attestation|
        match att.envelope {
            None => Some((ErrorKind::MalformedBundle, "missing DSSE envelope in attestation"@)),
            Some(env) => spec_first_some(
                env.signatures@,
                spec_envelope_sig_scan(ts, now, env.payload@),
            ),
        }
}

/// The first signature failure across the bundle, in order, or `None`
/// when every signature of every attestation verifies.
pub open spec fn spec_signatures_error(
    ab: AttestationBundle,
    ts: TrustStore,
    now: i64,
) -> Option<(ErrorKind, Seq<char>)> {
    spec_first_some(ab.attestations@, spec_attestation_sig_scan(ts, now))
}

/// Check every signature of every attestation: each envelope present,
/// each key known, each signature valid for its key at time `now`. All
/// signatures are checked; the first failure is reported.
#[verifier::loop_isolation(false)]
pub fn verify_signatures(attestation: &AttestationBundle, trust_store: &TrustStore, now: i64) -> (r:
    Result<(), VerifyError>)
    ensures
        r is Ok <==> spec_signatures_error(*attestation, *trust_store, now) is None,
        r matches Err(e) ==> Some((e.kind, e.message@)) == spec_signatures_error(
            *attestation,
            *trust_store,
            now,
        ),
{
    let atts = &attestation.attestations;
    let n = atts.len();
    let mut i: usize = 0;
    while i < n
        invariant
            i <= n,
            forall|k: int|
                0 <= k < i ==> spec_attestation_sig_scan(*trust_store, now)(
                    #[trigger] atts@[k],
                ) is None,
        decreases n - i,
    {
        match &atts[i].envelope {
            None => {
                proof {
                    lemma_first_some_found(atts@, spec_attestation_sig_scan(*trust_store, now), i as int);
                    reveal_strlit("missing DSSE envelope in attestation");
                }
                return Err(VerifyError::new(
                    ErrorKind::MalformedBundle,
                    String::from_str("missing DSSE envelope in attestation"),
                ));
            },
            Some(env) => {
                let m = env.signatures.len();
                let mut j: usize = 0;
                while j < m
                    invariant
                        i < n,
                        j <= m,
                        m == env.signatures@.len(),
                        atts@[i as int].envelope == Some(*env),
                        forall|l: int|
                            0 <= l < j ==> spec_envelope_sig_scan(*trust_store, now, env.payload@)(
                                #[trigger] env.signatures@[l],
                            ) is None,
                    decreases m - j,
                {
                    let s = &env.signatures[j];
                    let outcome: Result<(), VerifyError> = match trust_store.get_key(
                        s.keyid.as_str(),
                    ) {
                        None => Err(VerifyError::new(
                            ErrorKind::UnknownKey,
                            keyid_message("unknown key: ", s.keyid.as_str()),
                        )),
                        Some(key) => verify_signature(&env.payload, &s.sig, key, now),
                    };
                    match outcome {
                        Err(e) => {
                            proof {
                                lemma_first_some_found(
                                    env.signatures@,
                                    spec_envelope_sig_scan(*trust_store, now, env.payload@),
                                    j as int,
                                );
                                lemma_first_some_found(
                                    atts@,
                                    spec_attestation_sig_scan(*trust_store, now),
                                    i as int,
                                );
                            }
                            return Err(e);
                        },
                        Ok(()) => {},
                    }
                    j += 1;
                }
                proof {
                    lemma_first_some_none(
                        env.signatures@,
                        spec_envelope_sig_scan(*trust_store, now, env.payload@),
                    );
                }
            },
        }
        i += 1;
    }
    proof {
        lemma_first_some_none(atts@, spec_attestation_sig_scan(*trust_store, now));
    }
    Ok(())
}

} // verus!
