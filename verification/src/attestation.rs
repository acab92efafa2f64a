//! The attestation bundle data model, the media-type check, and the
//! subject-match check: every attested subject digest must equal the
//! claimed image digest.

use vstd::prelude::*;

use crate::bundle::CtpBundle;
use crate::errors::{ErrorKind, VerifyError};
use crate::scan::{
    lemma_first_some_found, lemma_first_some_none, spec_first_some,
};
use crate::text::str_eq;

verus! {

/// A digest set: the SHA-256 digest of a subject, as 64 hex characters.
#[derive(Debug)]
pub struct DigestSet {
    pub sha256: String,
}

/// One subject of an attestation.
#[derive(Debug)]
pub struct Subject {
    pub digest: DigestSet,
}

/// One signature of a DSSE envelope: a key identifier and the raw
/// signature bytes.
#[derive(Debug)]
pub struct DSSESignature {
    pub keyid: String,
    pub sig: Vec<u8>,
}

/// A DSSE envelope: the payload bytes actually signed, and the signatures
/// over them.
#[derive(Debug)]
pub struct DSSEEnvelope {
    pub payload_type: String,
    pub payload: Vec<u8>,
    pub signatures: Vec<DSSESignature>,
}

/// One attestation: its subjects, a predicate type, and its envelope.
#[derive(Debug)]
pub struct Attestation {
    pub subject: Vec<Subject>,
    pub predicate_type: String,
    pub envelope: Option<DSSEEnvelope>,
}

/// An RFC 6962 inclusion proof: the leaf position, the tree size, the
/// claimed root, and the audit path (leaf hash first, then siblings
/// upward), all hashes in hex.
#[derive(Debug)]
pub struct MerkleProof {
    pub log_index: u64,
    pub root_hash: String,
    pub tree_size: u64,
    pub hashes: Vec<String>,
}

/// One transparency-log entry: the log's key identifier, its signed entry
/// timestamp in base64, and an optional inclusion proof.
#[derive(Debug)]
pub struct LogEntry {
    pub log_id: String,
    pub signed_entry_timestamp: String,
    pub inclusion_proof: Option<MerkleProof>,
}

/// The decoded attestation bundle.
#[derive(Debug)]
pub struct AttestationBundle {
    pub media_type: String,
    pub version: String,
    pub attestations: Vec<Attestation>,
    pub log_entries: Vec<LogEntry>,
}

/// The one media type a well-formed bundle carries.
pub open spec fn spec_media_type() -> Seq<char> {
    "application/vnd.verified-container.bundle+json"@
}

/// The message of a media-type rejection.
pub open spec fn spec_media_type_msg(found: Seq<char>) -> Seq<char> {
    "invalid media type: "@ + found
}

/// Reject a bundle whose media type is not the expected literal.
pub fn check_media_type(bundle: &AttestationBundle) -> (r: Result<(), VerifyError>)
    ensures
        r is Ok <==> bundle.media_type@ == spec_media_type(),
        r matches Err(e) ==> e.kind == ErrorKind::MalformedBundle && e.message@
            == spec_media_type_msg(bundle.media_type@),
{
    if str_eq(bundle.media_type.as_str(), "application/vnd.verified-container.bundle+json") {
        Ok(())
    } else {
        let mut msg = String::from_str("invalid media type: ");
        msg.append(bundle.media_type.as_str());
        Err(VerifyError::new(ErrorKind::MalformedBundle, msg))
    }
}

/// The full digest a subject claims: `sha256:` ahead of its hex digest.
pub open spec fn spec_subject_digest(sub: Subject) -> Seq<char> {
    "sha256:"@ + sub.digest.sha256@
}

/// The scan over one attestation's subjects: the first digest that
/// differs from the claimed image digest.
pub open spec fn spec_subject_scan(image: Seq<char>) -> spec_fn(Subject) -> Option<Seq<char>> {
    |sub: Subject|
        if spec_subject_digest(sub) != image {
            Some(spec_subject_digest(sub))
        } else {
            None
        }
}

/// The scan over attestations: the first mismatching subject digest in
/// order.
pub open spec fn spec_attestation_scan(image: Seq<char>) -> spec_fn(Attestation) -> Option<
    Seq<char>,
> {
    |att: Attestation| spec_first_some(att.subject@, spec_subject_scan(image))
}

/// The first subject digest of any attestation that differs from the
/// claimed image digest, or `None` when every subject matches.
pub open spec fn spec_subject_mismatch(image: Seq<char>, atts: Seq<Attestation>) -> Option<
    Seq<char>,
> {
    spec_first_some(atts, spec_attestation_scan(image))
}

/// The message of a subject-mismatch rejection.
pub open spec fn spec_subject_mismatch_msg(expected: Seq<char>, found: Seq<char>) -> Seq<char> {
    "subject mismatch: expected "@ + expected + ", found "@ + found
}

/// Check that every subject of every attestation carries exactly the
/// claimed image digest. All subjects are checked; the first mismatch is
/// reported.
#[verifier::loop_isolation(false)]
pub fn verify_subject_match(bundle: &CtpBundle, attestation: &AttestationBundle) -> (r: Result<
    (),
    VerifyError,
>)
    ensures
        r is Ok <==> spec_subject_mismatch(
            bundle.manifest.image_digest@,
            attestation.attestations@,
        ) is None,
        r matches Err(e) ==> {
            &&& e.kind == ErrorKind::SubjectMismatch
            &&& spec_subject_mismatch(
                bundle.manifest.image_digest@,
                attestation.attestations@,
            ) matches Some(found) && e.message@ == spec_subject_mismatch_msg(
                bundle.manifest.image_digest@,
                found,
            )
        },
{
    let ghost image = bundle.manifest.image_digest@;
    let atts = &attestation.attestations;
    let n = atts.len();
    let mut i: usize = 0;
    while i < n
        invariant
            n == atts@.len(),
            i <= n,
            image == bundle.manifest.image_digest@,
            forall|k: int|
                0 <= k < i ==> spec_attestation_scan(image)(#[trigger] atts@[k]) is None,
        decreases n - i,
    {
        let subs = &atts[i].subject;
        let m = subs.len();
        let mut j: usize = 0;
        while j < m
            invariant
                n == atts@.len(),
                i < n,
                m == subs@.len(),
                j <= m,
                subs@ == atts@[i as int].subject@,
                image == bundle.manifest.image_digest@,
                forall|k: int|
                    0 <= k < i ==> spec_attestation_scan(image)(#[trigger] atts@[k]) is None,
                forall|l: int|
                    0 <= l < j ==> spec_subject_scan(image)(#[trigger] subs@[l]) is None,
            decreases m - j,
        {
            let found = String::from_str("sha256:").concat(subs[j].digest.sha256.as_str());
            proof {
                reveal_strlit("sha256:");
                assert(found@ == spec_subject_digest(subs@[j as int]));
            }
            if !str_eq(found.as_str(), bundle.manifest.image_digest.as_str()) {
                let mut msg = String::from_str("subject mismatch: expected ");
                msg.append(bundle.manifest.image_digest.as_str());
                msg.append(", found ");
                msg.append(found.as_str());
                proof {
                    reveal_strlit("subject mismatch: expected ");
                    reveal_strlit(", found ");
                    lemma_first_some_found(subs@, spec_subject_scan(image), j as int);
                    lemma_first_some_found(atts@, spec_attestation_scan(image), i as int);
                    assert(msg@ =~= spec_subject_mismatch_msg(image, found@));
                }
                return Err(VerifyError::new(ErrorKind::SubjectMismatch, msg));
            }
            j += 1;
        }
        proof {
            lemma_first_some_none(subs@, spec_subject_scan(image));
        }
        i += 1;
    }
    proof {
        lemma_first_some_none(atts@, spec_attestation_scan(image));
    }
    Ok(())
}

} // verus!
