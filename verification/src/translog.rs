//! Transparency-log checks: the federation requirement of two distinct
//! logs, the signed entry timestamp of each entry, and its inclusion
//! proof when one is present.

use vstd::prelude::*;

use crate::attestation::{AttestationBundle, LogEntry};
use crate::clock::SET_FUTURE_SKEW_SECONDS;
use crate::codec::{be_u64_at, spec_be_val, vec_skip, vec_take};
use crate::crypto::{base64_decode, ed25519_verify, spec_base64_decode, spec_ed25519_valid};
use crate::errors::{ErrorKind, VerifyError};
use crate::merkle::{spec_merkle_error, verify_merkle_proof};
use crate::scan::{lemma_first_some_found, lemma_first_some_none, lemma_first_some_witness,
    spec_first_some};
use crate::text::{count_distinct, decimal_string, spec_dec_str};
use crate::trust::{spec_get_key, TrustStore, TrustedKey};

verus! {

/// What the signed-entry-timestamp verifier rejects, in checking order:
/// base64 framing and a 74-byte floor (64 signature bytes after at least
/// ten header bytes), a stated timestamp more than a week in the future,
/// and finally the log's Ed25519 signature over everything ahead of the
/// final 64 bytes. Bytes 2..10 are the stated timestamp in big-endian
/// milliseconds.
pub open spec fn spec_set_error(set_b64: Seq<char>, key: TrustedKey, now: i64) -> Option<
    (ErrorKind, Seq<char>),
> {
    match spec_base64_decode(set_b64) {
        None => Some(
            (ErrorKind::MalformedBundle, "invalid base64 in signed entry timestamp"@),
        ),
        Some(bytes) => {
            if bytes.len() < 74 {
                Some((ErrorKind::MalformedBundle, "signed entry timestamp too short"@))
            } else if spec_be_val(bytes.subrange(2, 10)) / 1000 > now + SET_FUTURE_SKEW_SECONDS {
                Some((ErrorKind::SetInvalid, "signed entry timestamp is in the future"@))
            } else if key.key_bytes@.len() != 32 {
                Some((ErrorKind::SetInvalid, "invalid log key length"@))
            } else if !spec_ed25519_valid(
                key.key_bytes@,
                bytes.take(bytes.len() - 64),
                bytes.skip(bytes.len() - 64),
            ) {
                Some(
                    (
                        ErrorKind::SetInvalid,
                        "signed entry timestamp signature verification failed"@,
                    ),
                )
            } else {
                None
            }
        },
    }
}

/// Verify a base64-encoded signed entry timestamp against the log's
/// trusted key at time `now`.
pub fn verify_set_signature(set_b64: &str, log_key: &TrustedKey, now: i64) -> (r: Result<
    (),
    VerifyError,
>)
    ensures
        r is Ok <==> spec_set_error(set_b64@, *log_key, now) is None,
        r matches Err(e) ==> Some((e.kind, e.message@)) == spec_set_error(set_b64@, *log_key, now),
{
    let bytes = match base64_decode(set_b64) {
        Some(v) => v,
        None => {
            proof {
                reveal_strlit("invalid base64 in signed entry timestamp");
            }
            return Err(VerifyError::new(
                ErrorKind::MalformedBundle,
                String::from_str("invalid base64 in signed entry timestamp"),
            ));
        },
    };
    if bytes.len() < 74 {
        proof {
            reveal_strlit("signed entry timestamp too short");
        }
        return Err(VerifyError::new(
            ErrorKind::MalformedBundle,
            String::from_str("signed entry timestamp too short"),
        ));
    }
    let timestamp_ms = be_u64_at(bytes.as_slice(), 2);
    let timestamp_secs = timestamp_ms / 1000;
    if (timestamp_secs as i128) > (now as i128) + (SET_FUTURE_SKEW_SECONDS as i128) {
        proof {
            reveal_strlit("signed entry timestamp is in the future");
        }
        return Err(VerifyError::new(
            ErrorKind::SetInvalid,
            String::from_str("signed entry timestamp is in the future"),
        ));
    }
    if log_key.key_bytes.len() != 32 {
        proof {
            reveal_strlit("invalid log key length");
        }
        return Err(VerifyError::new(
            ErrorKind::SetInvalid,
            String::from_str("invalid log key length"),
        ));
    }
    let split = bytes.len() - 64;
    let signed_data = vec_take(&bytes, split);
    let signature = vec_skip(&bytes, split);
    if !ed25519_verify(
        log_key.key_bytes.as_slice(),
        signed_data.as_slice(),
        signature.as_slice(),
    ) {
        proof {
            reveal_strlit("signed entry timestamp signature verification failed");
        }
        return Err(VerifyError::new(
            ErrorKind::SetInvalid,
            String::from_str("signed entry timestamp signature verification failed"),
        ));
    }
    Ok(())
}

/// The message of an unresolved log identifier.
pub open spec fn spec_unknown_log_msg(log_id: Seq<char>) -> Seq<char> {
    "log not in trust store: "@ + log_id
}

/// The log identifiers of the bundle, in order.
pub open spec fn spec_log_ids(ab: AttestationBundle) -> Seq<Seq<char>> {
    ab.log_entries@.map_values(|e: LogEntry| e.log_id@)
}

/// The scan over log entries: the log's key must resolve, its signed
/// entry timestamp must verify, and a present inclusion proof must check
/// out. A missing proof is accepted.
pub open spec fn spec_log_entry_scan(ts: TrustStore, now: i64) -> spec_fn(LogEntry) -> Option<
    (ErrorKind, Seq<char>),
> {
    |e: LogEntry|
        match spec_get_key(ts, e.log_id@) {
            None => Some((ErrorKind::UnknownKey, spec_unknown_log_msg(e.log_id@))),
            Some(k) => match spec_set_error(e.signed_entry_timestamp@, k, now) {
                Some(err) => Some(err),
                None => match e.inclusion_proof {
                    Some(p) => spec_merkle_error(p),
                    None => None,
                },
            },
        }
}

/// The message of the federation rejection, citing the distinct-log count.
pub open spec fn spec_log_coverage_msg(count: nat) -> Seq<char> {
    "insufficient log coverage: "@ + spec_dec_str(count) + " distinct logs, need 2"@
}

/// What the log-inclusion pass rejects: fewer than two distinct log
/// identifiers, else the first failing log entry in order.
pub open spec fn spec_log_inclusion_error(
    ab: AttestationBundle,
    ts: TrustStore,
    now: i64,
) -> Option<(ErrorKind, Seq<char>)> {
    if spec_log_ids(ab).to_set().len() < 2 {
        Some(
            (
                ErrorKind::InsufficientLogCoverage,
                spec_log_coverage_msg(spec_log_ids(ab).to_set().len()),
            ),
        )
    } else {
        spec_first_some(ab.log_entries@, spec_log_entry_scan(ts, now))
    }
}

/// Check transparency-log coverage: at least two distinct logs, a valid
/// signed entry timestamp for each entry, and a valid inclusion proof
/// wherever one is present.
#[verifier::loop_isolation(false)]
pub fn verify_log_inclusion(attestation: &AttestationBundle, trust_store: &TrustStore, now: i64) -> (r:
    Result<(), VerifyError>)
    ensures
        r is Ok <==> spec_log_inclusion_error(*attestation, *trust_store, now) is None,
        r matches Err(e) ==> Some((e.kind, e.message@)) == spec_log_inclusion_error(
            *attestation,
            *trust_store,
            now,
        ),
{
    let entries = &attestation.log_entries;
    let n = entries.len();
    let mut ids: Vec<String> = Vec::new();
    let mut i: usize = 0;
    while i < n
        invariant
            i <= n,
            n == entries@.len(),
            ids@.len() == i,
            forall|j: int| 0 <= j < i ==> #[trigger] ids@[j]@ == entries@[j].log_id@,
        decreases n - i,
    {
        ids.push(entries[i].log_id.clone());
        i += 1;
    }
    proof {
        assert(ids@.map_values(|x: String| x@) =~= spec_log_ids(*attestation));
    }
    let distinct = count_distinct(&ids);
    if distinct < 2 {
        let mut msg = String::from_str("insufficient log coverage: ");
        let count_str = decimal_string(distinct as u64);
        msg.append(count_str.as_str());
        msg.append(" distinct logs, need 2");
        proof {
            reveal_strlit("insufficient log coverage: ");
            reveal_strlit(" distinct logs, need 2");
            assert(msg@ =~= spec_log_coverage_msg(spec_log_ids(*attestation).to_set().len()));
        }
        return Err(VerifyError::new(ErrorKind::InsufficientLogCoverage, msg));
    }
    let mut i: usize = 0;
    while i < n
        invariant
            i <= n,
            n == entries@.len(),
            spec_log_ids(*attestation).to_set().len() >= 2,
            forall|k: int|
                0 <= k < i ==> spec_log_entry_scan(*trust_store, now)(
                    #[trigger] entries@[k],
                ) is None,
        decreases n - i,
    {
        let entry = &entries[i];
        let log_key = match trust_store.get_key(entry.log_id.as_str()) {
            None => {
                let mut msg = String::from_str("log not in trust store: ");
                msg.append(entry.log_id.as_str());
                proof {
                    reveal_strlit("log not in trust store: ");
                    lemma_first_some_found(entries@, spec_log_entry_scan(*trust_store, now), i as int);
                }
                return Err(VerifyError::new(ErrorKind::UnknownKey, msg));
            },
            Some(k) => k,
        };
        match verify_set_signature(entry.signed_entry_timestamp.as_str(), log_key, now) {
            Err(e) => {
                proof {
                    lemma_first_some_found(entries@, spec_log_entry_scan(*trust_store, now), i as int);
                }
                return Err(e);
            },
            Ok(()) => {},
        }
        match &entry.inclusion_proof {
            Some(p) => {
                match verify_merkle_proof(p) {
                    Err(e) => {
                        proof {
                            lemma_first_some_found(
                                entries@,
                                spec_log_entry_scan(*trust_store, now),
                                i as int,
                            );
                        }
                        return Err(e);
                    },
                    Ok(()) => {},
                }
            },
            None => {},
        }
        i += 1;
    }
    proof {
        lemma_first_some_none(entries@, spec_log_entry_scan(*trust_store, now));
    }
    Ok(())
}

/// The federation boundary: exactly one distinct log identifier is
/// rejected for insufficient coverage; exactly two distinct identifiers
/// pass that check, whatever else the entries may fail.
pub proof fn lemma_log_coverage_boundary(ab: AttestationBundle, ts: TrustStore, now: i64)
    ensures
        spec_log_ids(ab).to_set().len() == 1 ==> spec_log_inclusion_error(ab, ts, now) == Some(
            (ErrorKind::InsufficientLogCoverage, spec_log_coverage_msg(1)),
        ),
        spec_log_ids(ab).to_set().len() == 2 ==> !(spec_log_inclusion_error(
            ab,
            ts,
            now,
        ) matches Some((k, m)) && k == ErrorKind::InsufficientLogCoverage),
{
    if spec_log_ids(ab).to_set().len() == 2 {
        let scan = spec_log_entry_scan(ts, now);
        if spec_first_some(ab.log_entries@, scan) is Some {
            lemma_first_some_witness(ab.log_entries@, scan);
            let i = choose|i: int|
                0 <= i < ab.log_entries@.len() && scan(#[trigger] ab.log_entries@[i])
                    == spec_first_some(ab.log_entries@, scan);
            let e = ab.log_entries@[i];
            assert(!(scan(e) matches Some((k, m)) && k == ErrorKind::InsufficientLogCoverage));
        }
    }
}

} // verus!
