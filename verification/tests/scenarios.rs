use base64::Engine;
use ed25519_dalek::{Signer, SigningKey};
use sha2::{Digest, Sha256};

use verified_container::attestation::{
    check_media_type, verify_subject_match, Attestation, AttestationBundle, DSSEEnvelope,
    DSSESignature, DigestSet, LogEntry, MerkleProof, Subject,
};
use verified_container::bundle::{CtpBundle, Manifest, ManifestMetadata};
use verified_container::errors::ErrorKind;
use verified_container::merkle::verify_merkle_proof;
use verified_container::pipeline::{
    cache_entry_fresh, evaluate, outcome_label, verify_bundle, VerificationMode,
};
use verified_container::signature::{verify_ed25519_signature, verify_signature, verify_signatures};
use verified_container::threshold::verify_threshold;
use verified_container::translog::{verify_log_inclusion, verify_set_signature};
use verified_container::trust::{ThresholdGroup, TrustStore, TrustedKey};

const NOW: i64 = 1_700_000_000;
const MEDIA: &str = "application/vnd.verified-container.bundle+json";
const PAYLOAD: &[u8] = b"attestation payload";

fn signing_key(seed: u8) -> SigningKey {
    SigningKey::from_bytes(&[seed; 32])
}

fn trusted_key(keyid: &str, seed: u8) -> TrustedKey {
    TrustedKey {
        keyid: keyid.to_string(),
        key_bytes: signing_key(seed).verifying_key().to_bytes().to_vec(),
        algorithm: "ed25519".to_string(),
        valid_from: None,
        valid_until: None,
        trust_level: "release".to_string(),
    }
}

fn store_with_threshold(k: usize) -> TrustStore {
    TrustStore {
        keys: vec![
            trusted_key("K1", 1),
            trusted_key("K2", 2),
            trusted_key("K3", 3),
            trusted_key("L1", 11),
            trusted_key("L2", 12),
        ],
        threshold_groups: vec![ThresholdGroup {
            name: "release-signers".to_string(),
            k,
            n: 3,
            member_keyids: vec!["K1".to_string(), "K2".to_string(), "K3".to_string()],
        }],
    }
}

fn set_blob(seed: u8, ts_ms: u64) -> String {
    let mut signed = vec![0u8, 0u8];
    signed.extend_from_slice(&ts_ms.to_be_bytes());
    let sig = signing_key(seed).sign(&signed);
    let mut all = signed;
    all.extend_from_slice(&sig.to_bytes());
    base64::engine::general_purpose::STANDARD.encode(&all)
}

fn log_entry(log_id: &str, seed: u8) -> LogEntry {
    LogEntry {
        log_id: log_id.to_string(),
        signed_entry_timestamp: set_blob(seed, (NOW as u64 - 1000) * 1000),
        inclusion_proof: None,
    }
}

fn envelope(signers: &[(&str, u8)]) -> DSSEEnvelope {
    DSSEEnvelope {
        payload_type: "application/vnd.in-toto+json".to_string(),
        payload: PAYLOAD.to_vec(),
        signatures: signers
            .iter()
            .map(|(id, seed)| DSSESignature {
                keyid: id.to_string(),
                sig: signing_key(*seed).sign(PAYLOAD).to_bytes().to_vec(),
            })
            .collect(),
    }
}

fn attestation_bundle(subject_hex: &str, signers: &[(&str, u8)]) -> AttestationBundle {
    AttestationBundle {
        media_type: MEDIA.to_string(),
        version: "1.0".to_string(),
        attestations: vec![Attestation {
            subject: vec![Subject { digest: DigestSet { sha256: subject_hex.to_string() } }],
            predicate_type: "https://example.com/provenance".to_string(),
            envelope: Some(envelope(signers)),
        }],
        log_entries: vec![log_entry("L1", 11), log_entry("L2", 12)],
    }
}

fn ctp_bundle(subject_hex: &str) -> CtpBundle {
    CtpBundle {
        manifest: Manifest {
            name: "nginx-1.26".to_string(),
            version: "1.26".to_string(),
            image_digest: format!("sha256:{}", subject_hex),
            metadata: ManifestMetadata { build_timestamp: None, builder: None },
        },
        oci_layout_path: "/tmp/b/oci-layout".to_string(),
        attestations_path: "/tmp/b/attestations".to_string(),
        signatures_path: "/tmp/b/signatures".to_string(),
    }
}

fn digest_aa() -> String {
    "aa".repeat(32)
}

#[test]
fn test_happy_path_allows() {
    let subject = digest_aa();
    let bundle = ctp_bundle(&subject);
    let ab = attestation_bundle(&subject, &[("K1", 1), ("K2", 2), ("K3", 3)]);
    let ts = store_with_threshold(2);

    let d = verify_bundle(&bundle, &ab, &ts, NOW, VerificationMode::Strict);
    assert!(d.verdict.is_ok());
    assert!(d.allow_execution);
    assert!(d.write_cache);
    assert_eq!(outcome_label(d.audit), "ALLOW");
}

#[test]
fn test_subject_mismatch_rejects() {
    let bundle = ctp_bundle(&digest_aa());
    let ab = attestation_bundle(&"bb".repeat(32), &[("K1", 1), ("K2", 2), ("K3", 3)]);
    let ts = store_with_threshold(2);

    let d = verify_bundle(&bundle, &ab, &ts, NOW, VerificationMode::Strict);
    let err = d.verdict.unwrap_err();
    assert_eq!(err.kind, ErrorKind::SubjectMismatch);
    assert!(!d.allow_execution);
    assert!(!d.write_cache);
    assert_eq!(outcome_label(d.audit), "REJECT");
}

#[test]
fn test_threshold_not_met_cites_count() {
    let subject = digest_aa();
    let bundle = ctp_bundle(&subject);
    let ab = attestation_bundle(&subject, &[("K1", 1)]);
    let ts = store_with_threshold(2);

    let d = verify_bundle(&bundle, &ab, &ts, NOW, VerificationMode::Strict);
    let err = d.verdict.unwrap_err();
    assert_eq!(err.kind, ErrorKind::ThresholdNotMet);
    assert!(err.message.contains("1 of 3"));
    assert!(!d.write_cache);
}

#[test]
fn test_single_log_rejected() {
    let subject = digest_aa();
    let bundle = ctp_bundle(&subject);
    let mut ab = attestation_bundle(&subject, &[("K1", 1), ("K2", 2), ("K3", 3)]);
    ab.log_entries = vec![log_entry("L1", 11), log_entry("L1", 11)];
    let ts = store_with_threshold(2);

    let d = verify_bundle(&bundle, &ab, &ts, NOW, VerificationMode::Strict);
    let err = d.verdict.unwrap_err();
    assert_eq!(err.kind, ErrorKind::InsufficientLogCoverage);
}

#[test]
fn test_permissive_override_allows() {
    let bundle = ctp_bundle(&digest_aa());
    let ab = attestation_bundle(&"bb".repeat(32), &[("K1", 1), ("K2", 2), ("K3", 3)]);
    let ts = store_with_threshold(2);

    let d = verify_bundle(&bundle, &ab, &ts, NOW, VerificationMode::Permissive);
    assert!(d.verdict.is_err());
    assert!(d.allow_execution);
    assert!(!d.write_cache);
    assert_eq!(outcome_label(d.audit), "PERMIT_OVERRIDE");
}

#[test]
fn test_payload_byte_flip_invalidates() {
    let subject = digest_aa();
    let bundle = ctp_bundle(&subject);
    let mut ab = attestation_bundle(&subject, &[("K1", 1), ("K2", 2), ("K3", 3)]);
    let ts = store_with_threshold(2);
    assert!(evaluate(&bundle, &ab, &ts, NOW).is_ok());

    if let Some(env) = ab.attestations[0].envelope.as_mut() {
        env.payload[0] ^= 1;
    }
    let err = evaluate(&bundle, &ab, &ts, NOW).unwrap_err();
    assert_eq!(err.kind, ErrorKind::InvalidSignature);
}

#[test]
fn test_full_threshold_requires_all_members() {
    let subject = digest_aa();
    let bundle = ctp_bundle(&subject);
    let ts = store_with_threshold(3);

    let all = attestation_bundle(&subject, &[("K1", 1), ("K2", 2), ("K3", 3)]);
    assert!(evaluate(&bundle, &all, &ts, NOW).is_ok());

    let two = attestation_bundle(&subject, &[("K1", 1), ("K2", 2)]);
    let err = evaluate(&bundle, &two, &ts, NOW).unwrap_err();
    assert_eq!(err.kind, ErrorKind::ThresholdNotMet);
}

#[test]
fn test_unit_threshold_single_signer_suffices() {
    let subject = digest_aa();
    let ab = attestation_bundle(&subject, &[("K2", 2)]);
    let ts = store_with_threshold(1);
    assert!(verify_threshold(&ab, &ts).is_ok());
}

#[test]
fn test_log_coverage_boundary() {
    let subject = digest_aa();
    let mut one_log = attestation_bundle(&subject, &[("K1", 1)]);
    one_log.log_entries = vec![log_entry("L1", 11)];
    let ts = store_with_threshold(2);
    let err = verify_log_inclusion(&one_log, &ts, NOW).unwrap_err();
    assert_eq!(err.kind, ErrorKind::InsufficientLogCoverage);

    let two_logs = attestation_bundle(&subject, &[("K1", 1)]);
    assert!(verify_log_inclusion(&two_logs, &ts, NOW).is_ok());
}

fn leaf_hash(data: &[u8]) -> Vec<u8> {
    let mut h = Sha256::new();
    h.update([0u8]);
    h.update(data);
    h.finalize().to_vec()
}

fn node_hash(left: &[u8], right: &[u8]) -> Vec<u8> {
    let mut h = Sha256::new();
    h.update([1u8]);
    h.update(left);
    h.update(right);
    h.finalize().to_vec()
}

#[test]
fn test_merkle_two_leaf_tree() {
    let h0 = leaf_hash(b"leaf zero");
    let h1 = leaf_hash(b"leaf one");
    let root = node_hash(&h0, &h1);

    let proof0 = MerkleProof {
        log_index: 0,
        tree_size: 2,
        root_hash: hex::encode(&root),
        hashes: vec![hex::encode(&h0), hex::encode(&h1)],
    };
    assert!(verify_merkle_proof(&proof0).is_ok());

    let proof1 = MerkleProof {
        log_index: 1,
        tree_size: 2,
        root_hash: hex::encode(&root),
        hashes: vec![hex::encode(&h1), hex::encode(&h0)],
    };
    assert!(verify_merkle_proof(&proof1).is_ok());
}

#[test]
fn test_merkle_single_leaf_last_index() {
    let h0 = leaf_hash(b"only leaf");
    let proof = MerkleProof {
        log_index: 0,
        tree_size: 1,
        root_hash: hex::encode(&h0),
        hashes: vec![hex::encode(&h0)],
    };
    assert!(verify_merkle_proof(&proof).is_ok());
}

#[test]
fn test_merkle_rejections() {
    let h0 = leaf_hash(b"leaf zero");
    let h1 = leaf_hash(b"leaf one");
    let root = node_hash(&h0, &h1);

    let out_of_range = MerkleProof {
        log_index: 2,
        tree_size: 2,
        root_hash: hex::encode(&root),
        hashes: vec![hex::encode(&h0), hex::encode(&h1)],
    };
    assert_eq!(verify_merkle_proof(&out_of_range).unwrap_err().kind, ErrorKind::LogProofInvalid);

    let empty_path = MerkleProof {
        log_index: 0,
        tree_size: 2,
        root_hash: hex::encode(&root),
        hashes: vec![],
    };
    assert_eq!(verify_merkle_proof(&empty_path).unwrap_err().kind, ErrorKind::LogProofInvalid);

    let bad_hex = MerkleProof {
        log_index: 0,
        tree_size: 2,
        root_hash: "zz".to_string(),
        hashes: vec![hex::encode(&h0), hex::encode(&h1)],
    };
    assert_eq!(verify_merkle_proof(&bad_hex).unwrap_err().kind, ErrorKind::MalformedBundle);

    let wrong_root = MerkleProof {
        log_index: 0,
        tree_size: 2,
        root_hash: hex::encode(&h0),
        hashes: vec![hex::encode(&h0), hex::encode(&h1)],
    };
    assert_eq!(verify_merkle_proof(&wrong_root).unwrap_err().kind, ErrorKind::LogProofInvalid);
}

#[test]
fn test_inclusion_proof_checked_in_pipeline() {
    let subject = digest_aa();
    let bundle = ctp_bundle(&subject);
    let mut ab = attestation_bundle(&subject, &[("K1", 1), ("K2", 2)]);
    let h0 = leaf_hash(b"entry");
    ab.log_entries[0].inclusion_proof = Some(MerkleProof {
        log_index: 0,
        tree_size: 1,
        root_hash: hex::encode(&h0),
        hashes: vec![hex::encode(&h0)],
    });
    let ts = store_with_threshold(2);
    assert!(evaluate(&bundle, &ab, &ts, NOW).is_ok());

    ab.log_entries[0].inclusion_proof = Some(MerkleProof {
        log_index: 0,
        tree_size: 1,
        root_hash: hex::encode(leaf_hash(b"other")),
        hashes: vec![hex::encode(&h0)],
    });
    let err = evaluate(&bundle, &ab, &ts, NOW).unwrap_err();
    assert_eq!(err.kind, ErrorKind::LogProofInvalid);
}

#[test]
fn test_set_signature_paths() {
    let key = trusted_key("L1", 11);
    assert!(verify_set_signature(&set_blob(11, (NOW as u64) * 1000), &key, NOW).is_ok());

    // signed by the wrong key
    let err = verify_set_signature(&set_blob(12, (NOW as u64) * 1000), &key, NOW).unwrap_err();
    assert_eq!(err.kind, ErrorKind::SetInvalid);

    // stated timestamp more than a week ahead
    let future_ms = ((NOW + 604800 + 10) as u64) * 1000;
    let err = verify_set_signature(&set_blob(11, future_ms), &key, NOW).unwrap_err();
    assert_eq!(err.kind, ErrorKind::SetInvalid);

    // too short to hold a signature
    let short = base64::engine::general_purpose::STANDARD.encode([0u8; 73]);
    let err = verify_set_signature(&short, &key, NOW).unwrap_err();
    assert_eq!(err.kind, ErrorKind::MalformedBundle);

    // not base64 at all
    let err = verify_set_signature("!!!not-base64!!!", &key, NOW).unwrap_err();
    assert_eq!(err.kind, ErrorKind::MalformedBundle);
}

#[test]
fn test_signature_verifier_kinds() {
    let payload = PAYLOAD.to_vec();
    let good_sig = signing_key(1).sign(PAYLOAD).to_bytes().to_vec();

    let mut expired = trusted_key("K1", 1);
    expired.valid_until = Some(NOW - 10);
    let err = verify_signature(&payload, &good_sig, &expired, NOW).unwrap_err();
    assert_eq!(err.kind, ErrorKind::ExpiredKey);

    let mut not_yet = trusted_key("K1", 1);
    not_yet.valid_from = Some(NOW + 10);
    let err = verify_signature(&payload, &good_sig, &not_yet, NOW).unwrap_err();
    assert_eq!(err.kind, ErrorKind::KeyNotYetValid);

    let mut rsa = trusted_key("K1", 1);
    rsa.algorithm = "rsa".to_string();
    let err = verify_signature(&payload, &good_sig, &rsa, NOW).unwrap_err();
    assert_eq!(err.kind, ErrorKind::UnsupportedAlgorithm);

    let err = verify_signature(&payload, &good_sig[..63].to_vec(), &trusted_key("K1", 1), NOW)
        .unwrap_err();
    assert_eq!(err.kind, ErrorKind::InvalidSignature);

    let wrong_signer = signing_key(2).sign(PAYLOAD).to_bytes().to_vec();
    let err = verify_signature(&payload, &wrong_signer, &trusted_key("K1", 1), NOW).unwrap_err();
    assert_eq!(err.kind, ErrorKind::InvalidSignature);

    let windowed = TrustedKey {
        valid_from: Some(NOW - 100),
        valid_until: Some(NOW + 100),
        ..trusted_key("K1", 1)
    };
    assert!(verify_signature(&payload, &good_sig, &windowed, NOW).is_ok());
}

#[test]
fn test_unknown_key_and_missing_envelope() {
    let subject = digest_aa();
    let mut ab = attestation_bundle(&subject, &[("K9", 9)]);
    let ts = store_with_threshold(2);
    let err = verify_signatures(&ab, &ts, NOW).unwrap_err();
    assert_eq!(err.kind, ErrorKind::UnknownKey);
    assert!(err.message.contains("K9"));

    ab.attestations[0].envelope = None;
    let err = verify_signatures(&ab, &ts, NOW).unwrap_err();
    assert_eq!(err.kind, ErrorKind::MalformedBundle);
}

#[test]
fn test_raw_ed25519_verifier() {
    let sk = signing_key(5);
    let pk = sk.verifying_key().to_bytes().to_vec();
    let sig = sk.sign(b"msg").to_bytes().to_vec();
    assert!(verify_ed25519_signature(b"msg", &sig, &pk).is_ok());
    assert!(verify_ed25519_signature(b"other", &sig, &pk).is_err());
    assert!(verify_ed25519_signature(b"msg", &sig[..10], &pk).is_err());
    assert!(verify_ed25519_signature(b"msg", &sig, &pk[..31]).is_err());
}

#[test]
fn test_media_type_rejected() {
    let subject = digest_aa();
    let bundle = ctp_bundle(&subject);
    let mut ab = attestation_bundle(&subject, &[("K1", 1)]);
    ab.media_type = "application/json".to_string();
    assert_eq!(check_media_type(&ab).unwrap_err().kind, ErrorKind::MalformedBundle);
    let err = evaluate(&bundle, &ab, &store_with_threshold(2), NOW).unwrap_err();
    assert_eq!(err.kind, ErrorKind::MalformedBundle);
}

#[test]
fn test_subject_match_direct() {
    let subject = digest_aa();
    let bundle = ctp_bundle(&subject);
    let ab = attestation_bundle(&subject, &[("K1", 1)]);
    assert!(verify_subject_match(&bundle, &ab).is_ok());

    let other = attestation_bundle(&"bb".repeat(32), &[("K1", 1)]);
    let err = verify_subject_match(&bundle, &other).unwrap_err();
    assert_eq!(err.kind, ErrorKind::SubjectMismatch);
    assert!(err.message.contains(&format!("sha256:{}", "bb".repeat(32))));
}

#[test]
fn test_missing_threshold_group() {
    let subject = digest_aa();
    let ab = attestation_bundle(&subject, &[("K1", 1)]);
    let mut ts = store_with_threshold(2);
    ts.threshold_groups.clear();
    let err = verify_threshold(&ab, &ts).unwrap_err();
    assert_eq!(err.kind, ErrorKind::ThresholdNotMet);
    assert!(err.message.contains("release-signers"));
}

#[test]
fn test_fingerprint_is_order_independent() {
    let a = TrustStore {
        keys: vec![trusted_key("K1", 1), trusted_key("K2", 2)],
        threshold_groups: vec![],
    };
    let b = TrustStore {
        keys: vec![trusted_key("K2", 2), trusted_key("K1", 1)],
        threshold_groups: vec![],
    };
    assert_eq!(a.fingerprint(), b.fingerprint());

    let mutated = TrustStore {
        keys: vec![trusted_key("K1", 1), trusted_key("K9", 2)],
        threshold_groups: vec![],
    };
    assert_ne!(a.fingerprint(), mutated.fingerprint());
}

#[test]
fn test_fingerprint_value() {
    let ts = TrustStore {
        keys: vec![trusted_key("K2", 2), trusted_key("K1", 1)],
        threshold_groups: vec![],
    };
    let digest = Sha256::digest(b"K1K2");
    assert_eq!(ts.fingerprint(), hex::encode(&digest[..4]));
    assert_eq!(ts.fingerprint().len(), 8);
}

#[test]
fn test_trust_store_lookups() {
    let ts = store_with_threshold(2);
    assert_eq!(ts.get_key("K2").unwrap().keyid, "K2");
    assert!(ts.get_key("K9").is_none());
    let g = ts.get_threshold_group("release-signers").unwrap();
    assert_eq!(g.k, 2);
    assert_eq!(g.n, 3);
    assert!(ts.get_threshold_group("other").is_none());
}

#[test]
fn test_check_well_formed() {
    assert!(store_with_threshold(2).check_well_formed());

    let mut dup = store_with_threshold(2);
    dup.keys.push(trusted_key("K1", 7));
    assert!(!dup.check_well_formed());

    let mut zero_k = store_with_threshold(2);
    zero_k.threshold_groups[0].k = 0;
    assert!(!zero_k.check_well_formed());

    let mut k_over_n = store_with_threshold(2);
    k_over_n.threshold_groups[0].k = 4;
    assert!(!k_over_n.check_well_formed());

    let mut dup_member = store_with_threshold(2);
    dup_member.threshold_groups[0].member_keyids = vec!["K1".to_string(), "K1".to_string()];
    assert!(!dup_member.check_well_formed());
}

#[test]
fn test_repeat_verification_is_identical() {
    let subject = digest_aa();
    let bundle = ctp_bundle(&subject);
    let ab = attestation_bundle(&subject, &[("K1", 1), ("K2", 2), ("K3", 3)]);
    let ts = store_with_threshold(2);

    let first = verify_bundle(&bundle, &ab, &ts, NOW, VerificationMode::Strict);
    let second = verify_bundle(&bundle, &ab, &ts, NOW, VerificationMode::Strict);
    assert_eq!(first.allow_execution, second.allow_execution);
    assert_eq!(first.audit, second.audit);
    assert_eq!(first.write_cache, second.write_cache);
    assert_eq!(first.verdict.is_ok(), second.verdict.is_ok());

    // the entry the first run wrote is still fresh when the second looks
    assert!(first.write_cache);
    assert!(cache_entry_fresh(NOW, NOW));
}

#[test]
fn test_duplicate_keyid_counted_once() {
    // the same member signing twice counts as one distinct key
    let subject = digest_aa();
    let ab = attestation_bundle(&subject, &[("K1", 1), ("K1", 1)]);
    let ts = store_with_threshold(2);
    let err = verify_threshold(&ab, &ts).unwrap_err();
    assert_eq!(err.kind, ErrorKind::ThresholdNotMet);
    assert!(err.message.contains("1 of 3"));
}
