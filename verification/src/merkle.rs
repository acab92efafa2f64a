//! RFC 6962 audit-path verification: recompute the tree root from the
//! leaf hash and its sibling hashes, and compare it to the claimed root.

use vstd::prelude::*;

use crate::attestation::MerkleProof;
use crate::codec::{bytes_eq, decode_hex, spec_hex_bytes, spec_is_hex};
use crate::crypto::{sha256, spec_sha256};
use crate::errors::{ErrorKind, VerifyError};

verus! {

/// An RFC 6962 interior node: SHA-256 over a `0x01` tag and the two
/// children.
pub open spec fn spec_node_hash(left: Seq<u8>, right: Seq<u8>) -> Seq<u8> {
    spec_sha256(seq![1u8] + left + right)
}

/// Fold the audit path upward from `cur`: at an even index the sibling is
/// the right child, at an odd index the left; the index halves at each
/// level.
pub open spec fn spec_merkle_fold(cur: Seq<u8>, siblings: Seq<Seq<u8>>, index: nat) -> Seq<u8>
    decreases siblings.len(),
{
    if siblings.len() == 0 {
        cur
    } else {
        let next = if index % 2 == 0 {
            spec_node_hash(cur, siblings.first())
        } else {
            spec_node_hash(siblings.first(), cur)
        };
        spec_merkle_fold(next, siblings.drop_first(), index / 2)
    }
}

/// The decoded audit path: each hex string as bytes.
pub open spec fn spec_decoded_path(p: MerkleProof) -> Seq<Seq<u8>> {
    p.hashes@.map_values(|h: String| spec_hex_bytes(h@))
}

/// What the Merkle verifier rejects, in checking order: the leaf index
/// against the tree size, the hex framing of the root and of the audit
/// path, an empty path, and finally a recomputed root that differs from
/// the claimed one. The first hash of the path is the leaf hash; the
/// rest are siblings, ordered upward.
pub open spec fn spec_merkle_error(p: MerkleProof) -> Option<(ErrorKind, Seq<char>)> {
    if p.log_index >= p.tree_size {
        Some((ErrorKind::LogProofInvalid, "invalid proof: log_index not below tree_size"@))
    } else if !spec_is_hex(p.root_hash@) {
        Some((ErrorKind::MalformedBundle, "invalid hex in Merkle root hash"@))
    } else if exists|i: int| 0 <= i < p.hashes@.len() && !spec_is_hex((#[trigger] p.hashes@[i])@) {
        Some((ErrorKind::MalformedBundle, "invalid hex in Merkle audit path"@))
    } else if p.hashes@.len() == 0 {
        Some((ErrorKind::LogProofInvalid, "empty audit path in Merkle proof"@))
    } else if spec_merkle_fold(
        spec_decoded_path(p).first(),
        spec_decoded_path(p).drop_first(),
        p.log_index as nat,
    ) != spec_hex_bytes(p.root_hash@) {
        Some((ErrorKind::LogProofInvalid, "Merkle proof root mismatch"@))
    } else {
        None
    }
}

/// Verify an RFC 6962 audit path from the leaf hash to the claimed root.
#[verifier::loop_isolation(false)]
pub fn verify_merkle_proof(proof: &MerkleProof) -> (r: Result<(), VerifyError>)
    ensures
        r is Ok <==> spec_merkle_error(*proof) is None,
        r matches Err(e) ==> Some((e.kind, e.message@)) == spec_merkle_error(*proof),
{
    if proof.log_index >= proof.tree_size {
        proof {
            reveal_strlit("invalid proof: log_index not below tree_size");
        }
        return Err(VerifyError::new(
            ErrorKind::LogProofInvalid,
            String::from_str("invalid proof: log_index not below tree_size"),
        ));
    }
    let expected_root = match decode_hex(proof.root_hash.as_str()) {
        Some(v) => v,
        None => {
            proof {
                reveal_strlit("invalid hex in Merkle root hash");
            }
            return Err(VerifyError::new(
                ErrorKind::MalformedBundle,
                String::from_str("invalid hex in Merkle root hash"),
            ));
        },
    };
    let n = proof.hashes.len();
    let mut i: usize = 0;
    while i < n
        invariant
            n == proof.hashes@.len(),
            i <= n,
            forall|k: int| 0 <= k < i ==> spec_is_hex((#[trigger] proof.hashes@[k])@),
        decreases n - i,
    {
        if decode_hex(proof.hashes[i].as_str()).is_none() {
            proof {
                reveal_strlit("invalid hex in Merkle audit path");
            }
            return Err(VerifyError::new(
                ErrorKind::MalformedBundle,
                String::from_str("invalid hex in Merkle audit path"),
            ));
        }
        i += 1;
    }
    if n == 0 {
        proof {
            reveal_strlit("empty audit path in Merkle proof");
        }
        return Err(VerifyError::new(
            ErrorKind::LogProofInvalid,
            String::from_str("empty audit path in Merkle proof"),
        ));
    }
    let ghost path = spec_decoded_path(*proof);
    let mut current = match decode_hex(proof.hashes[0].as_str()) {
        Some(v) => v,
        None => unreached(),
    };
    let mut index = proof.log_index;
    let mut j: usize = 1;
    while j < n
        invariant
            1 <= j <= n,
            n == proof.hashes@.len(),
            path == spec_decoded_path(*proof),
            spec_merkle_fold(current@, path.skip(j as int), index as nat) == spec_merkle_fold(
                path.first(),
                path.drop_first(),
                proof.log_index as nat,
            ),
        decreases n - j,
    {
        let mut sibling = match decode_hex(proof.hashes[j].as_str()) {
            Some(v) => v,
            None => unreached(),
        };
        let ghost old_current = current@;
        let ghost old_index = index as nat;
        let mut buf: Vec<u8> = Vec::new();
        buf.push(1u8);
        let even = index % 2 == 0;
        if even {
            buf.append(&mut current);
            buf.append(&mut sibling);
        } else {
            buf.append(&mut sibling);
            buf.append(&mut current);
        }
        proof {
            if even {
                assert(buf@ =~= seq![1u8] + old_current + path[j as int]);
            } else {
                assert(buf@ =~= seq![1u8] + path[j as int] + old_current);
            }
        }
        current = sha256(buf.as_slice());
        index = index / 2;
        proof {
            assert(path.skip(j as int).first() == path[j as int]);
            assert(path.skip(j as int).drop_first() =~= path.skip(j + 1));
            assert(spec_merkle_fold(old_current, path.skip(j as int), old_index)
                == spec_merkle_fold(current@, path.skip(j + 1), index as nat));
        }
        j += 1;
    }
    proof {
        assert(path.skip(n as int) =~= Seq::<Seq<u8>>::empty());
        assert(spec_merkle_fold(current@, path.skip(n as int), index as nat) == current@);
    }
    if !bytes_eq(&current, &expected_root) {
        proof {
            reveal_strlit("Merkle proof root mismatch");
        }
        return Err(VerifyError::new(
            ErrorKind::LogProofInvalid,
            String::from_str("Merkle proof root mismatch"),
        ));
    }
    Ok(())
}

/// A single-leaf tree: the last leaf (index `tree_size - 1`, here zero)
/// with a one-element audit path is valid exactly because the leaf hash
/// is the root.
pub proof fn lemma_single_leaf_proof_valid(p: MerkleProof)
    requires
        p.tree_size == 1,
        p.log_index == p.tree_size - 1,
        p.hashes@.len() == 1,
        spec_is_hex(p.root_hash@),
        spec_is_hex(p.hashes@[0]@),
        spec_hex_bytes(p.hashes@[0]@) == spec_hex_bytes(p.root_hash@),
    ensures
        spec_merkle_error(p) is None,
{
    let path = spec_decoded_path(p);
    assert(path.len() == 1);
    assert(path.first() == spec_hex_bytes(p.hashes@[0]@));
    assert(path.drop_first().len() == 0);
    assert(spec_merkle_fold(path.first(), path.drop_first(), p.log_index as nat) == path.first());
}

} // verus!
