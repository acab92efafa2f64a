//! The bundle handle the unpacking layer hands to the verifier: the
//! claimed image identity and the paths of the unpacked tree. The
//! unpacking itself (tarball extraction, manifest decoding) is an external
//! collaborator; the verifier only reads these fields.

use vstd::prelude::*;

verus! {

/// Optional provenance fields of a bundle manifest.
#[derive(Debug)]
pub struct ManifestMetadata {
    pub build_timestamp: Option<String>,
    pub builder: Option<String>,
}

impl Default for ManifestMetadata {
    /// Both provenance fields absent.
    fn default() -> (r: ManifestMetadata)
        ensures
            r.build_timestamp is None,
            r.builder is None,
    {
        ManifestMetadata { build_timestamp: None, builder: None }
    }
}

/// The bundle manifest: the claimed image identity.
#[derive(Debug)]
pub struct Manifest {
    pub name: String,
    pub version: String,
    /// The claimed image digest, `sha256:` followed by 64 hex characters.
    pub image_digest: String,
    pub metadata: ManifestMetadata,
}

/// A loaded bundle: its manifest and the paths of the unpacked tree.
/// Immutable for the duration of a verification.
#[derive(Debug)]
pub struct CtpBundle {
    pub manifest: Manifest,
    pub oci_layout_path: String,
    pub attestations_path: String,
    pub signatures_path: String,
}

impl CtpBundle {
    /// The path of the attestation bundle JSON inside the unpacked tree.
    pub fn attestation_bundle_path(&self) -> (r: String)
        ensures
            r@ == self.attestations_path@ + "/bundle.json"@,
    {
        self.attestations_path.clone().concat("/bundle.json")
    }

    /// The path of the software bill of materials inside the unpacked tree.
    pub fn sbom_path(&self) -> (r: String)
        ensures
            r@ == self.attestations_path@ + "/sbom.json"@,
    {
        self.attestations_path.clone().concat("/sbom.json")
    }

    /// The path of the provenance statement inside the unpacked tree.
    pub fn provenance_path(&self) -> (r: String)
        ensures
            r@ == self.attestations_path@ + "/provenance.json"@,
    {
        self.attestations_path.clone().concat("/provenance.json")
    }
}

} // verus!
