use verified_container::bundle::{CtpBundle, Manifest, ManifestMetadata};
use verified_container::codec::{be_u64_at, bytes_eq, decode_hex, encode_hex, vec_skip, vec_take};
use verified_container::errors::{exit_code_for_kind, ErrorKind};
use verified_container::pipeline::{
    audit_record, cache_entry_fresh, cache_key, cache_sentinel, decide, exit_code_for_decision,
    outcome_label, parse_verify_mode, AuditOutcome, VerificationMode,
};
use verified_container::text::{contains_string, count_distinct, decimal_string, str_eq, str_lex_le};

fn manifest(name: &str, digest: &str) -> Manifest {
    Manifest {
        name: name.to_string(),
        version: "1.26".to_string(),
        image_digest: digest.to_string(),
        metadata: ManifestMetadata { build_timestamp: None, builder: None },
    }
}

fn bundle(name: &str, digest: &str) -> CtpBundle {
    CtpBundle {
        manifest: manifest(name, digest),
        oci_layout_path: "/tmp/bundle/oci-layout".to_string(),
        attestations_path: "/tmp/bundle/attestations".to_string(),
        signatures_path: "/tmp/bundle/signatures".to_string(),
    }
}

#[test]
fn test_parse_verify_mode() {
    let args = vec!["shim".to_string(), "--verify-mode=strict".to_string()];
    assert!(matches!(parse_verify_mode(&args).unwrap(), VerificationMode::Strict));

    let args = vec!["shim".to_string(), "--verify-mode=permissive".to_string()];
    assert!(matches!(parse_verify_mode(&args).unwrap(), VerificationMode::Permissive));
}

#[test]
fn test_default_mode_is_strict() {
    let args = vec!["shim".to_string()];
    assert!(matches!(parse_verify_mode(&args).unwrap(), VerificationMode::Strict));
}

#[test]
fn test_verification_mode_is_strict_by_default() {
    let mode = VerificationMode::Strict;
    assert!(matches!(mode, VerificationMode::Strict));
}

#[test]
fn test_parse_verify_mode_audit_and_invalid() {
    let args = vec!["shim".to_string(), "--verify-mode=audit".to_string()];
    assert!(matches!(parse_verify_mode(&args).unwrap(), VerificationMode::Audit));

    let args = vec!["shim".to_string(), "--verify-mode=frobnicate".to_string()];
    assert!(parse_verify_mode(&args).is_none());
}

#[test]
fn test_parse_verify_mode_first_flag_wins() {
    let args = vec![
        "shim".to_string(),
        "--verify-mode=permissive".to_string(),
        "--verify-mode=strict".to_string(),
    ];
    assert!(matches!(parse_verify_mode(&args).unwrap(), VerificationMode::Permissive));
}

#[test]
fn test_decide_pass_allows_and_caches() {
    let d = decide(VerificationMode::Strict, Ok(()));
    assert!(d.allow_execution);
    assert!(d.write_cache);
    assert_eq!(d.audit, AuditOutcome::Allow);
    assert_eq!(outcome_label(d.audit), "ALLOW");
    assert_eq!(exit_code_for_decision(&d), 0);
}

#[test]
fn test_decide_failure_by_mode() {
    let err = || {
        Err(verified_container::errors::VerifyError::new(
            ErrorKind::SubjectMismatch,
            "subject mismatch".to_string(),
        ))
    };
    let d = decide(VerificationMode::Strict, err());
    assert!(!d.allow_execution);
    assert!(!d.write_cache);
    assert_eq!(outcome_label(d.audit), "REJECT");
    assert_eq!(exit_code_for_decision(&d), 1);

    let d = decide(VerificationMode::Permissive, err());
    assert!(d.allow_execution);
    assert!(!d.write_cache);
    assert_eq!(outcome_label(d.audit), "PERMIT_OVERRIDE");
    assert_eq!(exit_code_for_decision(&d), 0);

    let d = decide(VerificationMode::Audit, err());
    assert!(d.allow_execution);
    assert!(!d.write_cache);
    assert_eq!(outcome_label(d.audit), "AUDIT");
    assert_eq!(exit_code_for_decision(&d), 0);
}

#[test]
fn test_exit_codes_by_kind() {
    assert_eq!(exit_code_for_kind(ErrorKind::MalformedBundle), 2);
    assert_eq!(exit_code_for_kind(ErrorKind::MissingAttestation), 2);
    assert_eq!(exit_code_for_kind(ErrorKind::MalformedTrustStore), 2);
    assert_eq!(exit_code_for_kind(ErrorKind::SubjectMismatch), 1);
    assert_eq!(exit_code_for_kind(ErrorKind::ThresholdNotMet), 1);
    assert_eq!(exit_code_for_kind(ErrorKind::InvalidSignature), 1);
    assert_eq!(exit_code_for_kind(ErrorKind::InsufficientLogCoverage), 1);
    assert_eq!(exit_code_for_kind(ErrorKind::SetInvalid), 1);
    assert_eq!(exit_code_for_kind(ErrorKind::LogProofInvalid), 1);
    assert_eq!(exit_code_for_kind(ErrorKind::UnknownKey), 1);
    assert_eq!(exit_code_for_kind(ErrorKind::ExpiredKey), 1);
    assert_eq!(exit_code_for_kind(ErrorKind::KeyNotYetValid), 1);
    assert_eq!(exit_code_for_kind(ErrorKind::UnsupportedAlgorithm), 1);
}

#[test]
fn test_cache_key_and_freshness() {
    let key = cache_key("sha256:abc", "deadbeef");
    assert_eq!(key, "sha256:abc-deadbeef");
    assert_eq!(cache_sentinel(), "VERIFIED");

    let now = 1_700_000_000i64;
    assert!(cache_entry_fresh(now, now));
    assert!(cache_entry_fresh(now, now - 3600));
    assert!(!cache_entry_fresh(now, now - 3601));
    assert!(!cache_entry_fresh(now, now + 1));
}

#[test]
fn test_audit_record_epoch() {
    let b = bundle("nginx", "sha256:aa");
    let line = audit_record(&b, AuditOutcome::Allow, 0);
    assert_eq!(
        line,
        "{\"timestamp\":\"1970-01-01T00:00:00+00:00\",\"bundle\":\"nginx\",\"digest\":\"sha256:aa\",\"outcome\":\"ALLOW\"}"
    );
}

#[test]
fn test_bundle_paths() {
    let b = bundle("nginx", "sha256:aa");
    assert_eq!(b.attestation_bundle_path(), "/tmp/bundle/attestations/bundle.json");
    assert_eq!(b.sbom_path(), "/tmp/bundle/attestations/sbom.json");
    assert_eq!(b.provenance_path(), "/tmp/bundle/attestations/provenance.json");
}

#[test]
fn test_decode_hex_values() {
    assert_eq!(decode_hex("0aff").unwrap(), vec![0x0a, 0xff]);
    assert_eq!(decode_hex("DEADbeef").unwrap(), vec![0xde, 0xad, 0xbe, 0xef]);
    assert_eq!(decode_hex("").unwrap(), Vec::<u8>::new());
    assert!(decode_hex("abc").is_none());
    assert!(decode_hex("zz").is_none());
}

#[test]
fn test_encode_hex_values() {
    assert_eq!(encode_hex(&[0x0a, 0xff]), "0aff");
    assert_eq!(encode_hex(&[]), "");
    assert_eq!(encode_hex(&[0xde, 0xad, 0xbe, 0xef]), hex::encode([0xde, 0xad, 0xbe, 0xef]));
}

#[test]
fn test_be_u64_at_values() {
    let bytes = [0u8, 0, 0, 0, 0, 0, 0, 0, 1, 2];
    assert_eq!(be_u64_at(&bytes, 2), 0x0102);
    let bytes = [0xffu8; 8];
    assert_eq!(be_u64_at(&bytes, 0), u64::MAX);
}

#[test]
fn test_vec_split_helpers() {
    let v = vec![1u8, 2, 3, 4, 5];
    assert_eq!(vec_take(&v, 2), vec![1, 2]);
    assert_eq!(vec_skip(&v, 2), vec![3, 4, 5]);
    assert!(bytes_eq(&vec![1, 2], &vec![1, 2]));
    assert!(!bytes_eq(&vec![1, 2], &vec![1, 3]));
}

#[test]
fn test_decimal_string_values() {
    assert_eq!(decimal_string(0), "0");
    assert_eq!(decimal_string(7), "7");
    assert_eq!(decimal_string(1234567890), "1234567890");
    assert_eq!(decimal_string(u64::MAX), "18446744073709551615");
}

#[test]
fn test_string_helpers() {
    assert!(str_eq("abc", "abc"));
    assert!(!str_eq("abc", "abd"));
    assert!(str_lex_le("abc", "abd"));
    assert!(str_lex_le("ab", "abc"));
    assert!(!str_lex_le("b", "abc"));

    let v = vec!["a".to_string(), "b".to_string(), "a".to_string()];
    assert!(contains_string(&v, "b"));
    assert!(!contains_string(&v, "c"));
    assert_eq!(count_distinct(&v), 2);
}
