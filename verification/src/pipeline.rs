//! The verification pipeline: the five checks in fixed order, the mode
//! that modulates only how a failure is reported, the cache-key and
//! freshness model, and the audit record of each decision.
//!
//! The decision core is a pure function of the bundle, the parsed
//! attestation bundle, the trust-store snapshot and the current time; the
//! mode never changes what is checked. I/O (reading the attestation file,
//! touching the cache directory, appending the audit log) stays outside
//! the library, which hands its caller everything needed for it: the
//! cache key, the freshness rule, the sentinel and the audit line.

use vstd::prelude::*;

use crate::attestation::{check_media_type, spec_media_type, spec_media_type_msg,
    spec_subject_mismatch, spec_subject_mismatch_msg, verify_subject_match, AttestationBundle};
use crate::bundle::CtpBundle;
use crate::clock::{rfc3339_utc, spec_rfc3339};
use crate::errors::{exit_code_for_kind, spec_exit_code_for_kind, ErrorKind, VerifyError,
    EXIT_SUCCESS};
use crate::scan::{lemma_first_some_found, lemma_first_some_none, spec_first_some};
use crate::signature::{spec_signatures_error, verify_signatures};
use crate::text::str_eq;
use crate::threshold::{spec_threshold_error, verify_threshold};
use crate::translog::{spec_log_inclusion_error, verify_log_inclusion};
use crate::trust::TrustStore;

verus! {

/// How a verification failure is reported upward. The mode never changes
/// what is checked.
#[derive(Debug, Clone, Copy, PartialEq, Eq, Structural)]
pub enum VerificationMode {
    /// Refuse execution on any verification failure.
    Strict,
    /// Allow execution despite a failure, recording an override.
    Permissive,
    /// Allow execution, recording the failure for audit only.
    Audit,
}

/// The mode a command-line argument selects, if it is recognised.
pub open spec fn spec_mode_of(s: Seq<char>) -> Option<VerificationMode> {
    if s == "strict"@ {
        Some(VerificationMode::Strict)
    } else if s == "permissive"@ {
        Some(VerificationMode::Permissive)
    } else if s == "audit"@ {
        Some(VerificationMode::Audit)
    } else {
        None
    }
}

/// Whether an argument carries the mode flag.
pub open spec fn spec_is_mode_flag(s: Seq<char>) -> bool {
    s.len() >= 14 && s.take(14) == "--verify-mode="@
}

/// The scan over arguments: the first mode flag decides, whether or not
/// its value is recognised.
pub open spec fn spec_mode_flag_scan() -> spec_fn(String) -> Option<Option<VerificationMode>> {
    |a: String|
        if spec_is_mode_flag(a@) {
            Some(spec_mode_of(a@.skip(14)))
        } else {
            None
        }
}

/// The mode the argument list selects: the first `--verify-mode=` flag's
/// value, `Strict` when no flag is given, and `None` for an unrecognised
/// value.
pub open spec fn spec_parse_verify_mode(args: Seq<String>) -> Option<VerificationMode> {
    match spec_first_some(args, spec_mode_flag_scan()) {
        None => Some(VerificationMode::Strict),
        Some(m) => m,
    }
}

/// Parse the mode from the command-line arguments: the first
/// `--verify-mode=` flag decides; without one the mode is `Strict`.
#[verifier::loop_isolation(false)]
pub fn parse_verify_mode(args: &Vec<String>) -> (r: Option<VerificationMode>)
    ensures
        r == spec_parse_verify_mode(args@),
{
    let n = args.len();
    let mut i: usize = 0;
    while i < n
        invariant
            i <= n,
            n == args@.len(),
            forall|k: int| 0 <= k < i ==> spec_mode_flag_scan()(#[trigger] args@[k]) is None,
        decreases n - i,
    {
        let a = args[i].as_str();
        let alen = a.unicode_len();
        if alen >= 14 {
            let prefix = a.substring_char(0, 14);
            if str_eq(prefix, "--verify-mode=") {
                let value = a.substring_char(14, alen);
                proof {
                    assert(a@.take(14) == prefix@);
                    assert(a@.skip(14) == value@);
                    assert(spec_is_mode_flag(args@[i as int]@));
                }
                let mode: Option<VerificationMode> = if str_eq(value, "strict") {
                    Some(VerificationMode::Strict)
                } else if str_eq(value, "permissive") {
                    Some(VerificationMode::Permissive)
                } else if str_eq(value, "audit") {
                    Some(VerificationMode::Audit)
                } else {
                    None
                };
                proof {
                    lemma_first_some_found(args@, spec_mode_flag_scan(), i as int);
                }
                return mode;
            } else {
                proof {
                    assert(a@.take(14) == prefix@);
                    assert(!spec_is_mode_flag(args@[i as int]@));
                }
            }
        } else {
            proof {
                assert(!spec_is_mode_flag(args@[i as int]@));
            }
        }
        i += 1;
    }
    proof {
        lemma_first_some_none(args@, spec_mode_flag_scan());
    }
    Some(VerificationMode::Strict)
}

/// The first failure of the five checks in pipeline order: media type,
/// subject match, signatures, log inclusion, threshold. `None` is a pass.
pub open spec fn spec_evaluate(
    bundle: CtpBundle,
    ab: AttestationBundle,
    ts: TrustStore,
    now: i64,
) -> Option<(ErrorKind, Seq<char>)> {
    let digest = bundle.manifest.image_digest@;
    if ab.media_type@ != spec_media_type() {
        Some((ErrorKind::MalformedBundle, spec_media_type_msg(ab.media_type@)))
    } else if spec_subject_mismatch(digest, ab.attestations@) is Some {
        Some(
            (
                ErrorKind::SubjectMismatch,
                spec_subject_mismatch_msg(digest, spec_subject_mismatch(digest, ab.attestations@)->0),
            ),
        )
    } else if spec_signatures_error(ab, ts, now) is Some {
        spec_signatures_error(ab, ts, now)
    } else if spec_log_inclusion_error(ab, ts, now) is Some {
        spec_log_inclusion_error(ab, ts, now)
    } else if spec_threshold_error(ab, ts) is Some {
        spec_threshold_error(ab, ts)
    } else {
        None
    }
}

/// Run checks two to six on an already-parsed attestation bundle: media
/// type, subject match, signatures, log inclusion, threshold. A failure
/// at any step short-circuits.
pub fn evaluate(
    bundle: &CtpBundle,
    attestation_bundle: &AttestationBundle,
    trust_store: &TrustStore,
    now: i64,
) -> (r: Result<(), VerifyError>)
    ensures
        r is Ok <==> spec_evaluate(*bundle, *attestation_bundle, *trust_store, now) is None,
        r matches Err(e) ==> Some((e.kind, e.message@)) == spec_evaluate(
            *bundle,
            *attestation_bundle,
            *trust_store,
            now,
        ),
{
    match check_media_type(attestation_bundle) {
        Err(e) => {
            return Err(e);
        },
        Ok(()) => {},
    }
    match verify_subject_match(bundle, attestation_bundle) {
        Err(e) => {
            return Err(e);
        },
        Ok(()) => {},
    }
    match verify_signatures(attestation_bundle, trust_store, now) {
        Err(e) => {
            return Err(e);
        },
        Ok(()) => {},
    }
    match verify_log_inclusion(attestation_bundle, trust_store, now) {
        Err(e) => {
            return Err(e);
        },
        Ok(()) => {},
    }
    match verify_threshold(attestation_bundle, trust_store) {
        Err(e) => {
            return Err(e);
        },
        Ok(()) => {},
    }
    Ok(())
}

/// The four audit outcomes a decision can record.
#[derive(Debug, Clone, Copy, PartialEq, Eq, Structural)]
pub enum AuditOutcome {
    Allow,
    Reject,
    Audit,
    PermitOverride,
}

/// The label an audit outcome writes into the record.
pub open spec fn spec_outcome_label(o: AuditOutcome) -> Seq<char> {
    match o {
        AuditOutcome::Allow => "ALLOW"@,
        AuditOutcome::Reject => "REJECT"@,
        AuditOutcome::Audit => "AUDIT"@,
        AuditOutcome::PermitOverride => "PERMIT_OVERRIDE"@,
    }
}

/// Render an audit outcome's label.
pub fn outcome_label(o: AuditOutcome) -> (r: String)
    ensures
        r@ == spec_outcome_label(o),
{
    match o {
        AuditOutcome::Allow => String::from_str("ALLOW"),
        AuditOutcome::Reject => String::from_str("REJECT"),
        AuditOutcome::Audit => String::from_str("AUDIT"),
        AuditOutcome::PermitOverride => String::from_str("PERMIT_OVERRIDE"),
    }
}

/// Whether execution is allowed: a pass always is; a failure is allowed
/// only by a non-strict mode.
pub open spec fn spec_allow_execution(mode: VerificationMode, failed: bool) -> bool {
    !failed || mode != VerificationMode::Strict
}

/// The audit outcome of a decision: a pass audits `ALLOW`; a failure
/// audits by mode.
pub open spec fn spec_audit_outcome(mode: VerificationMode, failed: bool) -> AuditOutcome {
    if !failed {
        AuditOutcome::Allow
    } else {
        match mode {
            VerificationMode::Strict => AuditOutcome::Reject,
            VerificationMode::Permissive => AuditOutcome::PermitOverride,
            VerificationMode::Audit => AuditOutcome::Audit,
        }
    }
}

/// One verification's decision: the underlying verdict, whether to hand
/// off to the runtime, the one audit outcome to record, and whether a
/// cache entry may be written.
#[derive(Debug)]
pub struct Decision {
    /// The underlying verification result, before the mode is applied.
    pub verdict: Result<(), VerifyError>,
    /// Whether the shim may hand off to the OCI runtime.
    pub allow_execution: bool,
    /// The audit outcome to record; exactly one per decision.
    pub audit: AuditOutcome,
    /// Whether a cache entry may be written: passes only, never failures.
    pub write_cache: bool,
}

/// Apply the mode to a verdict. The verdict is carried through
/// unchanged: the mode modulates only reporting.
pub fn decide(mode: VerificationMode, verdict: Result<(), VerifyError>) -> (d: Decision)
    ensures
        d.verdict == verdict,
        d.allow_execution == spec_allow_execution(mode, verdict is Err),
        d.audit == spec_audit_outcome(mode, verdict is Err),
        d.write_cache == (verdict is Ok),
{
    let failed = verdict.is_err();
    let audit = if !failed {
        AuditOutcome::Allow
    } else {
        match mode {
            VerificationMode::Strict => AuditOutcome::Reject,
            VerificationMode::Permissive => AuditOutcome::PermitOverride,
            VerificationMode::Audit => AuditOutcome::Audit,
        }
    };
    let allow_execution = !failed || !matches!(mode, VerificationMode::Strict);
    let write_cache = !failed;
    Decision { verdict, allow_execution, audit, write_cache }
}

/// A decision as a mathematical value: execution allowed, audit outcome,
/// cache write, and the underlying error, all from the bundle, the trust
/// store, the time and the mode alone.
pub open spec fn spec_decision(
    mode: VerificationMode,
    bundle: CtpBundle,
    ab: AttestationBundle,
    ts: TrustStore,
    now: i64,
) -> (bool, AuditOutcome, bool, Option<(ErrorKind, Seq<char>)>) {
    let err = spec_evaluate(bundle, ab, ts, now);
    (
        spec_allow_execution(mode, err is Some),
        spec_audit_outcome(mode, err is Some),
        err is None,
        err,
    )
}

/// Verify a parsed bundle against the trust store at time `now` under a
/// mode: run the five checks, then apply the mode to the result. The
/// decision is a pure function of the arguments; no hidden input
/// influences it.
pub fn verify_bundle(
    bundle: &CtpBundle,
    attestation_bundle: &AttestationBundle,
    trust_store: &TrustStore,
    now: i64,
    mode: VerificationMode,
) -> (d: Decision)
    ensures
        d.allow_execution == spec_decision(mode, *bundle, *attestation_bundle, *trust_store, now).0,
        d.audit == spec_decision(mode, *bundle, *attestation_bundle, *trust_store, now).1,
        d.write_cache == spec_decision(mode, *bundle, *attestation_bundle, *trust_store, now).2,
        d.verdict is Ok <==> spec_decision(mode, *bundle, *attestation_bundle, *trust_store, now).3 is None,
        d.verdict matches Err(e) ==> Some((e.kind, e.message@)) == spec_decision(
            mode,
            *bundle,
            *attestation_bundle,
            *trust_store,
            now,
        ).3,
{
    let verdict = evaluate(bundle, attestation_bundle, trust_store, now);
    decide(mode, verdict)
}

/// The process exit code of a decision: success when execution is
/// allowed, else the failing kind's code.
pub fn exit_code_for_decision(d: &Decision) -> (r: u8)
    ensures
        d.allow_execution ==> r == EXIT_SUCCESS,
        !d.allow_execution ==> match d.verdict {
            Ok(_) => r == EXIT_SUCCESS,
            Err(e) => r == spec_exit_code_for_kind(e.kind),
        },
{
    if d.allow_execution {
        return EXIT_SUCCESS;
    }
    match &d.verdict {
        Ok(_) => EXIT_SUCCESS,
        Err(e) => exit_code_for_kind(e.kind),
    }
}

/// Seconds a cache entry stays fresh after it was written.
pub const CACHE_TTL_SECONDS: i64 = 3600;

/// Whether a cache entry written at `modified` is still fresh at `now`.
pub open spec fn spec_cache_fresh(now: i64, modified: i64) -> bool {
    modified <= now && now - modified <= CACHE_TTL_SECONDS
}

/// Decide cache freshness: an entry is fresh for one TTL from its write
/// time; an entry from the future is never fresh.
pub fn cache_entry_fresh(now: i64, modified: i64) -> (r: bool)
    ensures
        r == spec_cache_fresh(now, modified),
{
    modified <= now && (now as i128) - (modified as i128) <= (CACHE_TTL_SECONDS as i128)
}

/// The cache key of a bundle under a trust store: the image digest and
/// the store fingerprint; a change to either invalidates.
pub fn cache_key(image_digest: &str, fingerprint: &str) -> (r: String)
    ensures
        r@ == image_digest@ + "-"@ + fingerprint@,
{
    let mut key = String::from_str(image_digest);
    key.append("-");
    key.append(fingerprint);
    key
}

/// The content of a cache entry.
pub fn cache_sentinel() -> (r: String)
    ensures
        r@ == "VERIFIED"@,
{
    String::from_str("VERIFIED")
}

/// One audit line: a JSON object with the timestamp, bundle name, image
/// digest and outcome.
pub open spec fn spec_audit_line(
    timestamp: Seq<char>,
    name: Seq<char>,
    digest: Seq<char>,
    outcome: Seq<char>,
) -> Seq<char> {
    "{\"timestamp\":\""@ + timestamp + "\",\"bundle\":\""@ + name + "\",\"digest\":\""@ + digest
        + "\",\"outcome\":\""@ + outcome + "\"}"@
}

/// Render the audit record of a decision on a bundle at time `now`:
/// exactly one line per decision.
pub fn audit_record(bundle: &CtpBundle, outcome: AuditOutcome, now: i64) -> (r: String)
    requires
        0 <= now <= 253402300799,
    ensures
        r@ == spec_audit_line(
            spec_rfc3339(now as int),
            bundle.manifest.name@,
            bundle.manifest.image_digest@,
            spec_outcome_label(outcome),
        ),
{
    let timestamp = rfc3339_utc(now);
    let label = outcome_label(outcome);
    let mut line = String::from_str("{\"timestamp\":\"");
    line.append(timestamp.as_str());
    line.append("\",\"bundle\":\"");
    line.append(bundle.manifest.name.as_str());
    line.append("\",\"digest\":\"");
    line.append(bundle.manifest.image_digest.as_str());
    line.append("\",\"outcome\":\"");
    line.append(label.as_str());
    line.append("\"}");
    proof {
        assert(line@ =~= spec_audit_line(
            spec_rfc3339(now as int),
            bundle.manifest.name@,
            bundle.manifest.image_digest@,
            spec_outcome_label(outcome),
        ));
    }
    line
}

/// The decision is pure: on equal bundles, attestation bundles, trust
/// stores and times, every mode decides equally. No environmental hidden
/// input can influence it, because there is no other argument.
pub proof fn lemma_decision_pure(
    mode: VerificationMode,
    b1: CtpBundle,
    ab1: AttestationBundle,
    ts1: TrustStore,
    now1: i64,
    b2: CtpBundle,
    ab2: AttestationBundle,
    ts2: TrustStore,
    now2: i64,
)
    requires
        b1 == b2,
        ab1 == ab2,
        ts1 == ts2,
        now1 == now2,
    ensures
        spec_decision(mode, b1, ab1, ts1, now1) == spec_decision(mode, b2, ab2, ts2, now2),
{
}

/// The mode modulates only reporting: under every mode the underlying
/// pass/fail — the error component of the decision — equals the one
/// computed under `Strict`, and a strict decision allows execution
/// exactly on a pass.
pub proof fn lemma_mode_only_reporting(
    mode: VerificationMode,
    bundle: CtpBundle,
    ab: AttestationBundle,
    ts: TrustStore,
    now: i64,
)
    ensures
        spec_decision(mode, bundle, ab, ts, now).3 == spec_decision(
            VerificationMode::Strict,
            bundle,
            ab,
            ts,
            now,
        ).3,
        spec_decision(mode, bundle, ab, ts, now).2 == spec_decision(
            VerificationMode::Strict,
            bundle,
            ab,
            ts,
            now,
        ).2,
        spec_decision(VerificationMode::Strict, bundle, ab, ts, now).0 <==> spec_evaluate(
            bundle,
            ab,
            ts,
            now,
        ) is None,
{
}

/// Every decision carries exactly one audit outcome: a pass audits
/// `ALLOW` under every mode; a failure audits `REJECT`, `PERMIT_OVERRIDE`
/// or `AUDIT` by mode, never `ALLOW`.
pub proof fn lemma_one_audit_outcome(mode: VerificationMode, failed: bool)
    ensures
        !failed ==> spec_audit_outcome(mode, failed) == AuditOutcome::Allow,
        failed ==> spec_audit_outcome(mode, failed) != AuditOutcome::Allow,
        failed && mode == VerificationMode::Strict ==> spec_audit_outcome(mode, failed)
            == AuditOutcome::Reject,
        failed && mode == VerificationMode::Permissive ==> spec_audit_outcome(mode, failed)
            == AuditOutcome::PermitOverride,
        failed && mode == VerificationMode::Audit ==> spec_audit_outcome(mode, failed)
            == AuditOutcome::Audit,
{
}

/// Cache entries exist only for passing verifications, so a cache hit's
/// `Allow` equals the decision that produced the entry: a fresh
/// evaluation of the same bundle, store and time passes and allows
/// execution under every mode.
pub proof fn lemma_cache_hit_consistent(
    mode: VerificationMode,
    bundle: CtpBundle,
    ab: AttestationBundle,
    ts: TrustStore,
    now: i64,
)
    requires
        spec_decision(mode, bundle, ab, ts, now).2,
    ensures
        spec_evaluate(bundle, ab, ts, now) is None,
        spec_decision(mode, bundle, ab, ts, now).0,
        spec_decision(mode, bundle, ab, ts, now).1 == AuditOutcome::Allow,
{
}

/// Verifying twice on an unchanged bundle and store decides identically
/// — the decision is a function of its arguments — and the entry the
/// first passing run wrote is still fresh for a second run within the
/// TTL: the second run is a cache hit.
pub proof fn lemma_second_run_cache_hit(
    mode: VerificationMode,
    bundle: CtpBundle,
    ab: AttestationBundle,
    ts: TrustStore,
    first_now: i64,
    second_now: i64,
)
    requires
        spec_decision(mode, bundle, ab, ts, first_now).2,
        first_now <= second_now <= first_now + CACHE_TTL_SECONDS,
    ensures
        spec_cache_fresh(second_now, first_now),
        spec_decision(mode, bundle, ab, ts, first_now).0,
        spec_decision(mode, bundle, ab, ts, first_now).1 == AuditOutcome::Allow,
{
}

} // verus!
