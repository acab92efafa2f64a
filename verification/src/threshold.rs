//! The threshold policy: at least `k` distinct members of the
//! `release-signers` group must appear among the DSSE signatures of the
//! bundle. Coverage only is enforced here; the signatures themselves were
//! already verified by the signature pass.

use vstd::prelude::*;

use vstd::set_lib::{lemma_len_subset, lemma_subset_equality};

use crate::attestation::AttestationBundle;
use crate::errors::{ErrorKind, VerifyError};
use crate::text::{contains_string, decimal_string, spec_dec_str, str_eq};
use crate::trust::{spec_get_threshold_group, ThresholdGroup, TrustStore};

verus! {

/// The views of a group's member key identifiers, in order.
pub open spec fn spec_members(g: ThresholdGroup) -> Seq<Seq<char>> {
    g.member_keyids@.map_values(|m: String| m@)
}

/// Whether some DSSE signature of some attestation carries this key
/// identifier.
pub open spec fn spec_signs(ab: AttestationBundle, id: Seq<char>) -> bool {
    exists|i: int, j: int|
        {
            &&& 0 <= i < ab.attestations@.len()
            &&& ab.attestations@[i].envelope is Some
            &&& 0 <= j < ab.attestations@[i].envelope->0.signatures@.len()
            &&& (#[trigger] ab.attestations@[i].envelope->0.signatures@[j]).keyid@ == id
        }
}

/// The group members that signed: the set the threshold counts.
pub open spec fn spec_group_signers(ab: AttestationBundle, g: ThresholdGroup) -> Set<Seq<char>> {
    Set::new(|id: Seq<char>| spec_members(g).contains(id) && spec_signs(ab, id))
}

/// The name of the one group the pipeline enforces.
pub open spec fn spec_release_signers() -> Seq<char> {
    "release-signers"@
}

/// The message of a threshold rejection, citing the distinct-signer
/// count against the group size and the required threshold.
pub open spec fn spec_threshold_msg(count: nat, k: nat, n: nat) -> Seq<char> {
    "threshold not met: "@ + spec_dec_str(count) + " of "@ + spec_dec_str(n)
        + " member keys signed, need "@ + spec_dec_str(k)
}

/// What the threshold pass rejects: a missing `release-signers` group,
/// or fewer distinct signing members than the group's threshold.
pub open spec fn spec_threshold_error(ab: AttestationBundle, ts: TrustStore) -> Option<
    (ErrorKind, Seq<char>),
> {
    match spec_get_threshold_group(ts, spec_release_signers()) {
        None => Some(
            (
                ErrorKind::ThresholdNotMet,
                "no release-signers threshold group in trust store"@,
            ),
        ),
        Some(g) => {
            let count = spec_group_signers(ab, g).len();
            if count < g.k {
                Some((ErrorKind::ThresholdNotMet, spec_threshold_msg(count, g.k as nat, g.n as nat)))
            } else {
                None
            }
        },
    }
}

/// Whether some DSSE signature of some attestation carries `id`.
#[verifier::loop_isolation(false)]
fn bundle_signs(ab: &AttestationBundle, id: &str) -> (r: bool)
    ensures
        r == spec_signs(*ab, id@),
{
    let atts = &ab.attestations;
    let n = atts.len();
    let mut i: usize = 0;
    while i < n
        invariant
            i <= n,
            n == atts@.len(),
            forall|p: int, q: int|
                0 <= p < i && atts@[p].envelope is Some && 0 <= q
                    < atts@[p].envelope->0.signatures@.len() ==> (
                #[trigger] atts@[p].envelope->0.signatures@[q]).keyid@ != id@,
        decreases n - i,
    {
        match &atts[i].envelope {
            Some(env) => {
                let m = env.signatures.len();
                let mut j: usize = 0;
                while j < m
                    invariant
                        i < n,
                        j <= m,
                        m == env.signatures@.len(),
                        atts@[i as int].envelope == Some(*env),
                        forall|q: int| 0 <= q < j ==> (#[trigger] env.signatures@[q]).keyid@ != id@,
                    decreases m - j,
                {
                    if str_eq(env.signatures[j].keyid.as_str(), id) {
                        proof {
                            assert(atts@[i as int].envelope->0.signatures@[j as int].keyid@ == id@);
                            assert(spec_signs(*ab, id@));
                        }
                        return true;
                    }
                    j += 1;
                }
                proof {
                    assert(forall|q: int|
                        0 <= q < atts@[i as int].envelope->0.signatures@.len() ==> (
                        #[trigger] atts@[i as int].envelope->0.signatures@[q]).keyid@ != id@);
                }
            },
            None => {},
        }
        i += 1;
    }
    proof {
        assert(!spec_signs(*ab, id@));
    }
    false
}

/// Count the distinct group members that signed, and enforce the
/// threshold `k`. The `release-signers` group must exist.
#[verifier::loop_isolation(false)]
pub fn verify_threshold(attestation: &AttestationBundle, trust_store: &TrustStore) -> (r: Result<
    (),
    VerifyError,
>)
    ensures
        r is Ok <==> spec_threshold_error(*attestation, *trust_store) is None,
        r matches Err(e) ==> Some((e.kind, e.message@)) == spec_threshold_error(
            *attestation,
            *trust_store,
        ),
{
    let group = match trust_store.get_threshold_group("release-signers") {
        Some(g) => g,
        None => {
            proof {
                reveal_strlit("no release-signers threshold group in trust store");
                reveal_strlit("release-signers");
            }
            return Err(VerifyError::new(
                ErrorKind::ThresholdNotMet,
                String::from_str("no release-signers threshold group in trust store"),
            ));
        },
    };
    let ghost g = *group;
    let members = &group.member_keyids;
    let n = members.len();
    let mut seen: Vec<String> = Vec::new();
    let mut i: usize = 0;
    while i < n
        invariant
            i <= n,
            n == members@.len(),
            members@ == g.member_keyids@,
            seen@.map_values(|x: String| x@).no_duplicates(),
            seen@.map_values(|x: String| x@).to_set() == Set::new(
                |id: Seq<char>| spec_members(g).take(i as int).contains(id) && spec_signs(
                    *attestation,
                    id,
                ),
            ),
        decreases n - i,
    {
        let ghost old_seen = seen@.map_values(|x: String| x@);
        let is_new = !contains_string(&seen, members[i].as_str());
        let signs = bundle_signs(attestation, members[i].as_str());
        if is_new && signs {
            seen.push(members[i].clone());
        }
        proof {
            broadcast use vstd::set::group_set_axioms;
            broadcast use vstd::seq_lib::group_seq_properties;

            let new_seen = seen@.map_values(|x: String| x@);
            let m_i = spec_members(g)[i as int];
            assert(m_i == members@[i as int]@);
            assert(spec_members(g).take(i + 1) == spec_members(g).take(i as int).push(m_i)) by {
                assert(spec_members(g).take(i + 1) =~= spec_members(g).take(i as int).push(m_i));
            }
            if is_new && signs {
                assert(new_seen == old_seen.push(m_i)) by {
                    assert(new_seen =~= old_seen.push(m_i));
                }
                assert(!old_seen.contains(m_i));
                assert(new_seen.no_duplicates()) by {
                    assert(forall|j: int|
                        0 <= j < old_seen.len() ==> #[trigger] old_seen[j] != m_i);
                }
                assert forall|id: Seq<char>| #[trigger] new_seen.contains(id) <==> (spec_members(
                    g,
                ).take(i + 1).contains(id) && spec_signs(*attestation, id)) by {
                    assert(old_seen.push(m_i).contains(id) <==> old_seen.contains(id) || m_i
                        == id);
                    assert(spec_members(g).take(i as int).push(m_i).contains(id)
                        <==> spec_members(g).take(i as int).contains(id) || m_i == id);
                    assert(old_seen.contains(id) <==> old_seen.to_set().contains(id));
                    if id == m_i {
                        assert(spec_signs(*attestation, id));
                    }
                }
                assert(new_seen.to_set() =~= Set::new(
                    |id: Seq<char>| spec_members(g).take(i + 1).contains(id) && spec_signs(
                        *attestation,
                        id,
                    ),
                ));
            } else {
                if !is_new {
                    assert(old_seen.contains(m_i));
                    assert(old_seen.to_set().contains(m_i));
                    assert(spec_members(g).take(i as int).contains(m_i) && spec_signs(
                        *attestation,
                        m_i,
                    ));
                }
                assert(new_seen.to_set() =~= Set::new(
                    |id: Seq<char>| spec_members(g).take(i + 1).contains(id) && spec_signs(
                        *attestation,
                        id,
                    ),
                ));
            }
        }
        i += 1;
    }
    let count = seen.len();
    proof {
        assert(spec_members(g).take(n as int) =~= spec_members(g));
        assert(seen@.map_values(|x: String| x@).to_set() =~= spec_group_signers(*attestation, g));
        seen@.map_values(|x: String| x@).unique_seq_to_set();
        assert(count == spec_group_signers(*attestation, g).len());
    }
    if count < group.k {
        let mut msg = String::from_str("threshold not met: ");
        let count_str = decimal_string(count as u64);
        msg.append(count_str.as_str());
        msg.append(" of ");
        let n_str = decimal_string(group.n as u64);
        msg.append(n_str.as_str());
        msg.append(" member keys signed, need ");
        let k_str = decimal_string(group.k as u64);
        msg.append(k_str.as_str());
        proof {
            reveal_strlit("threshold not met: ");
            reveal_strlit(" of ");
            reveal_strlit(" member keys signed, need ");
            assert(msg@ =~= spec_threshold_msg(
                spec_group_signers(*attestation, g).len(),
                g.k as nat,
                g.n as nat,
            ));
        }
        return Err(VerifyError::new(ErrorKind::ThresholdNotMet, msg));
    }
    Ok(())
}

/// A full threshold (`k = n`) passes only when every group member
/// signed: for a well-formed group, a passing check means each member
/// key identifier appears among the bundle's signatures.
pub proof fn lemma_full_threshold_requires_all(ab: AttestationBundle, ts: TrustStore, g: ThresholdGroup)
    requires
        spec_get_threshold_group(ts, spec_release_signers()) == Some(g),
        g.k == g.n,
        crate::trust::spec_group_well_formed(g),
        spec_threshold_error(ab, ts) is None,
    ensures
        forall|i: int| 0 <= i < spec_members(g).len() ==> spec_signs(ab, #[trigger] spec_members(g)[i]),
{
    broadcast use vstd::seq_lib::seq_to_set_is_finite;

    let members = spec_members(g);
    let memberset = members.to_set();
    let signers = spec_group_signers(ab, g);
    assert(signers.subset_of(memberset)) by {
        assert forall|id: Seq<char>| signers.contains(id) implies memberset.contains(id) by {
            assert(members.contains(id));
        }
    }
    lemma_len_subset(signers, memberset);
    members.unique_seq_to_set();
    assert(members.len() <= g.n);
    assert(signers.len() >= g.k);
    assert(signers.len() == memberset.len());
    lemma_subset_equality(signers, memberset);
    assert forall|i: int| 0 <= i < members.len() implies spec_signs(ab, #[trigger] members[i]) by {
        assert(memberset.contains(members[i]));
        assert(signers.contains(members[i]));
    }
}

/// A unit threshold (`k = 1`) passes exactly when a single group member
/// signed at all.
pub proof fn lemma_unit_threshold(ab: AttestationBundle, ts: TrustStore, g: ThresholdGroup)
    requires
        spec_get_threshold_group(ts, spec_release_signers()) == Some(g),
        g.k == 1,
    ensures
        spec_threshold_error(ab, ts) is None <==> exists|id: Seq<char>|
            spec_members(g).contains(id) && spec_signs(ab, id),
{
    broadcast use vstd::seq_lib::seq_to_set_is_finite;

    let members = spec_members(g);
    let memberset = members.to_set();
    let signers = spec_group_signers(ab, g);
    assert(signers.subset_of(memberset)) by {
        assert forall|id: Seq<char>| signers.contains(id) implies memberset.contains(id) by {
            assert(members.contains(id));
        }
    }
    lemma_len_subset(signers, memberset);
    if spec_threshold_error(ab, ts) is None {
        assert(signers.len() >= 1);
        assert(signers.contains(signers.choose())) by {
            if !(exists|id: Seq<char>| signers.contains(id)) {
                assert(signers =~= Set::<Seq<char>>::empty());
                assert(signers.len() == 0);
            }
        }
        let id = signers.choose();
        assert(members.contains(id) && spec_signs(ab, id));
    }
    if exists|id: Seq<char>| spec_members(g).contains(id) && spec_signs(ab, id) {
        let id = choose|id: Seq<char>| spec_members(g).contains(id) && spec_signs(ab, id);
        assert(signers.contains(id));
        assert(signers.len() >= 1) by {
            if signers.len() == 0 {
                signers.lemma_len0_is_empty();
            }
        }
        assert(spec_threshold_error(ab, ts) is None);
    }
}

} // verus!
