//! The trust store: trusted keys, threshold groups, lookups, the
//! well-formedness predicate of the data model, and the fingerprint that
//! keys the verification cache.
//!
//! The fingerprint hashes the key identifiers in sorted order, so it is a
//! function of the multiset of identifiers alone: loading the same store
//! with its keys in another order yields the same fingerprint.

use vstd::prelude::*;

use vstd::multiset::Multiset;
use vstd::relations::sorted_by;
use vstd::seq_lib::lemma_sorted_unique;

use crate::codec::{encode_hex, spec_hex_str};
use crate::crypto::{sha256, spec_sha256};
use crate::scan::{lemma_first_some_found, lemma_first_some_none, spec_first_some};
use crate::text::{lemma_lex_total_ordering, spec_lex_leq_fn, str_eq, str_lex_le};

verus! {

/// A trusted key: its identifier, 32 raw public-key bytes, an algorithm
/// tag, an optional validity window in Unix seconds, and a trust level.
#[derive(Debug)]
pub struct TrustedKey {
    pub keyid: String,
    pub key_bytes: Vec<u8>,
    pub algorithm: String,
    pub valid_from: Option<i64>,
    pub valid_until: Option<i64>,
    pub trust_level: String,
}

/// A named k-of-n signing policy over a set of member key identifiers.
#[derive(Debug)]
pub struct ThresholdGroup {
    pub name: String,
    pub k: usize,
    pub n: usize,
    pub member_keyids: Vec<String>,
}

/// The trusted keys and threshold groups a verification runs against.
/// Immutable for the duration of a verification.
#[derive(Debug)]
pub struct TrustStore {
    pub keys: Vec<TrustedKey>,
    pub threshold_groups: Vec<ThresholdGroup>,
}

/// The match function of a key lookup.
pub open spec fn spec_key_match(keyid: Seq<char>) -> spec_fn(TrustedKey) -> Option<TrustedKey> {
    |k: TrustedKey|
        if k.keyid@ == keyid {
            Some(k)
        } else {
            None
        }
}

/// The first key whose identifier is `keyid`, in store order.
pub open spec fn spec_get_key(ts: TrustStore, keyid: Seq<char>) -> Option<TrustedKey> {
    spec_first_some(ts.keys@, spec_key_match(keyid))
}

/// The match function of a group lookup.
pub open spec fn spec_group_match(name: Seq<char>) -> spec_fn(ThresholdGroup) -> Option<
    ThresholdGroup,
> {
    |g: ThresholdGroup|
        if g.name@ == name {
            Some(g)
        } else {
            None
        }
}

/// The first threshold group of that name, in store order.
pub open spec fn spec_get_threshold_group(ts: TrustStore, name: Seq<char>) -> Option<
    ThresholdGroup,
> {
    spec_first_some(ts.threshold_groups@, spec_group_match(name))
}

/// The key identifiers of the store, in store order.
pub open spec fn spec_keyids(ts: TrustStore) -> Seq<Seq<char>> {
    ts.keys@.map_values(|k: TrustedKey| k.keyid@)
}

/// A well-formed threshold group: a satisfiable threshold within the
/// group size, and no duplicate members.
pub open spec fn spec_group_well_formed(g: ThresholdGroup) -> bool {
    &&& 1 <= g.k <= g.n
    &&& g.member_keyids@.len() <= g.n
    &&& g.member_keyids@.map_values(|m: String| m@).no_duplicates()
}

/// The data-model invariant of a trust store: keys unique by identifier,
/// groups unique by name, every group well-formed.
pub open spec fn spec_well_formed(ts: TrustStore) -> bool {
    &&& spec_keyids(ts).no_duplicates()
    &&& ts.threshold_groups@.map_values(|g: ThresholdGroup| g.name@).no_duplicates()
    &&& forall|i: int|
        0 <= i < ts.threshold_groups@.len() ==> spec_group_well_formed(
            #[trigger] ts.threshold_groups@[i],
        )
}

impl TrustStore {
    /// Look up a trusted key by identifier; the first match wins.
    #[verifier::loop_isolation(false)]
    pub fn get_key<'a>(&'a self, keyid: &str) -> (r: Option<&'a TrustedKey>)
        ensures
            match r {
                Some(k) => spec_get_key(*self, keyid@) == Some(*k),
                None => spec_get_key(*self, keyid@) is None,
            },
    {
        let n = self.keys.len();
        let mut i: usize = 0;
        while i < n
            invariant
                i <= n,
                forall|j: int|
                    0 <= j < i ==> spec_key_match(keyid@)(#[trigger] self.keys@[j]) is None,
            decreases n - i,
        {
            if str_eq(self.keys[i].keyid.as_str(), keyid) {
                proof {
                    lemma_first_some_found(self.keys@, spec_key_match(keyid@), i as int);
                }
                return Some(&self.keys[i]);
            }
            i += 1;
        }
        proof {
            lemma_first_some_none(self.keys@, spec_key_match(keyid@));
        }
        None
    }

    /// Look up a threshold group by name; the first match wins.
    #[verifier::loop_isolation(false)]
    pub fn get_threshold_group<'a>(&'a self, name: &str) -> (r: Option<&'a ThresholdGroup>)
        ensures
            match r {
                Some(g) => spec_get_threshold_group(*self, name@) == Some(*g),
                None => spec_get_threshold_group(*self, name@) is None,
            },
    {
        let n = self.threshold_groups.len();
        let mut i: usize = 0;
        while i < n
            invariant
                i <= n,
                forall|j: int|
                    0 <= j < i ==> spec_group_match(name@)(
                        #[trigger] self.threshold_groups@[j],
                    ) is None,
            decreases n - i,
        {
            if str_eq(self.threshold_groups[i].name.as_str(), name) {
                proof {
                    lemma_first_some_found(
                        self.threshold_groups@,
                        spec_group_match(name@),
                        i as int,
                    );
                }
                return Some(&self.threshold_groups[i]);
            }
            i += 1;
        }
        proof {
            lemma_first_some_none(self.threshold_groups@, spec_group_match(name@));
        }
        None
    }

    /// The store's key identifiers, cloned, in store order.
    #[verifier::loop_isolation(false)]
    fn keyid_vec(&self) -> (r: Vec<String>)
        ensures
            r@.map_values(|s: String| s@) == spec_keyids(*self),
    {
        let n = self.keys.len();
        let mut out: Vec<String> = Vec::new();
        let mut i: usize = 0;
        while i < n
            invariant
                i <= n,
                out@.len() == i,
                forall|j: int| 0 <= j < i ==> #[trigger] out@[j]@ == self.keys@[j].keyid@,
            decreases n - i,
        {
            out.push(self.keys[i].keyid.clone());
            i += 1;
        }
        proof {
            assert(out@.map_values(|s: String| s@) =~= spec_keyids(*self));
        }
        out
    }

    /// Decide the data-model invariant: unique key identifiers, unique
    /// group names, well-formed groups.
    #[verifier::loop_isolation(false)]
    pub fn check_well_formed(&self) -> (r: bool)
        ensures
            r == spec_well_formed(*self),
    {
        let ids = self.keyid_vec();
        if !strings_distinct(&ids) {
            return false;
        }
        let n = self.threshold_groups.len();
        let mut names: Vec<String> = Vec::new();
        let mut i: usize = 0;
        while i < n
            invariant
                i <= n,
                names@.len() == i,
                forall|j: int| 0 <= j < i ==> #[trigger] names@[j]@ == self.threshold_groups@[j].name@,
            decreases n - i,
        {
            names.push(self.threshold_groups[i].name.clone());
            i += 1;
        }
        proof {
            assert(names@.map_values(|s: String| s@) =~= self.threshold_groups@.map_values(
                |g: ThresholdGroup| g.name@,
            ));
        }
        if !strings_distinct(&names) {
            return false;
        }
        let mut i: usize = 0;
        while i < n
            invariant
                i <= n,
                forall|j: int|
                    0 <= j < i ==> spec_group_well_formed(#[trigger] self.threshold_groups@[j]),
            decreases n - i,
        {
            let g = &self.threshold_groups[i];
            if g.k < 1 || g.k > g.n || g.member_keyids.len() > g.n {
                return false;
            }
            if !strings_distinct(&g.member_keyids) {
                return false;
            }
            i += 1;
        }
        true
    }
}

/// Decide whether the views of the strings are pairwise distinct.
#[verifier::loop_isolation(false)]
pub fn strings_distinct(v: &Vec<String>) -> (r: bool)
    ensures
        r == v@.map_values(|s: String| s@).no_duplicates(),
{
    let ghost vs = v@.map_values(|s: String| s@);
    let n = v.len();
    let mut i: usize = 0;
    while i < n
        invariant
            i <= n,
            vs == v@.map_values(|s: String| s@),
            forall|p: int, q: int| 0 <= p < q < i ==> vs[p] != vs[q],
            forall|p: int, q: int| 0 <= p < i && i <= q < n ==> vs[p] != vs[q],
        decreases n - i,
    {
        let mut j: usize = i + 1;
        while j < n
            invariant
                i < j <= n,
                vs == v@.map_values(|s: String| s@),
                forall|q: int| i < q < j ==> vs[i as int] != vs[q],
            decreases n - j,
        {
            if str_eq(v[i].as_str(), v[j].as_str()) {
                proof {
                    assert(vs[i as int] == v@[i as int]@);
                    assert(vs[j as int] == v@[j as int]@);
                    assert(vs[i as int] == vs[j as int]);
                    assert(!vs.no_duplicates());
                }
                return false;
            }
            j += 1;
        }
        i += 1;
    }
    true
}

/// Sort strings into lexicographic code-point order of their views,
/// keeping the multiset of views.
#[verifier::loop_isolation(false)]
fn sort_strings(input: Vec<String>) -> (r: Vec<String>)
    ensures
        sorted_by(r@.map_values(|s: String| s@), spec_lex_leq_fn()),
        r@.map_values(|s: String| s@).to_multiset() == input@.map_values(
            |s: String| s@,
        ).to_multiset(),
{
    broadcast use vstd::seq_lib::group_to_multiset_ensures;

    proof {
        lemma_lex_total_ordering();
    }
    let ghost leq = spec_lex_leq_fn();
    let ghost orig = input@.map_values(|s: String| s@);
    let mut work = input;
    let mut out: Vec<String> = Vec::new();
    while work.len() > 0
        invariant
            out@.map_values(|s: String| s@).to_multiset().add(
                work@.map_values(|s: String| s@).to_multiset(),
            ) == orig.to_multiset(),
            sorted_by(out@.map_values(|s: String| s@), leq),
            forall|p: int, q: int|
                0 <= p < out@.len() && 0 <= q < work@.len() ==> leq(
                    (#[trigger] out@[p])@,
                    (#[trigger] work@[q])@,
                ),
        decreases work.len(),
    {
        let ghost work_v = work@.map_values(|s: String| s@);
        let ghost out_v = out@.map_values(|s: String| s@);
        let wn = work.len();
        let mut m: usize = 0;
        let mut j: usize = 1;
        proof {
            assert(leq(work_v[0], work_v[0])) by {
                crate::text::lemma_lex_refl(work_v[0]);
            }
        }
        while j < wn
            invariant
                m < j <= wn,
                wn == work@.len(),
                work_v == work@.map_values(|s: String| s@),
                forall|k: int| 0 <= k < j ==> leq(work_v[m as int], #[trigger] work_v[k]),
            decreases wn - j,
        {
            if str_lex_le(work[j].as_str(), work[m].as_str()) {
                proof {
                    assert(leq(work_v[j as int], work_v[m as int]));
                    assert forall|k: int| 0 <= k < j + 1 implies leq(
                        work_v[j as int],
                        #[trigger] work_v[k],
                    ) by {
                        if k == j {
                            crate::text::lemma_lex_refl(work_v[j as int]);
                        } else {
                            crate::text::lemma_lex_trans(
                                work_v[j as int],
                                work_v[m as int],
                                work_v[k],
                            );
                        }
                    }
                }
                m = j;
            } else {
                proof {
                    assert(!leq(work_v[j as int], work_v[m as int]));
                    assert(leq(work_v[m as int], work_v[j as int])) by {
                        crate::text::lemma_lex_conn(work_v[m as int], work_v[j as int]);
                    }
                }
            }
            j += 1;
        }
        let ghost old_work = work@;
        let ghost old_out = out@;
        let x = work.remove(m);
        out.push(x);
        proof {
            let x_v = work_v[m as int];
            let new_work_v = work@.map_values(|s: String| s@);
            let new_out_v = out@.map_values(|s: String| s@);
            assert(work@ =~= old_work.remove(m as int));
            assert(new_work_v =~= work_v.remove(m as int)) by {
                assert(forall|t: int|
                    0 <= t < m ==> #[trigger] work@[t] == old_work[t]);
                assert(forall|t: int|
                    m <= t < work@.len() ==> #[trigger] work@[t] == old_work[t + 1]);
                assert(forall|t: int|
                    0 <= t < m ==> #[trigger] work_v.remove(m as int)[t] == work_v[t]);
                assert(forall|t: int|
                    m <= t < work_v.remove(m as int).len()
                        ==> #[trigger] work_v.remove(m as int)[t] == work_v[t + 1]);
            }
            assert(new_out_v =~= out_v.push(x_v));
            assert(work_v.contains(x_v)) by {
                assert(work_v[m as int] == x_v);
            }
            assert(new_out_v.to_multiset().add(new_work_v.to_multiset()) =~= orig.to_multiset());
            // every element already emitted is below the pushed minimum
            assert forall|p: int| 0 <= p < out_v.len() implies leq(#[trigger] new_out_v[p], x_v) by {
                assert(out_v[p] == (old_out[p])@);
                assert(leq((old_out[p])@, (old_work[m as int])@));
            }
            assert(sorted_by(new_out_v, leq)) by {
                assert forall|p: int, q: int| 0 <= p < q < new_out_v.len() implies leq(
                    #[trigger] new_out_v[p],
                    #[trigger] new_out_v[q],
                ) by {
                    if q < out_v.len() {
                        assert(leq(out_v[p], out_v[q]));
                    }
                }
            }
            // the pushed minimum is below everything still to come
            assert forall|q: int| 0 <= q < new_work_v.len() implies leq(
                x_v,
                #[trigger] new_work_v[q],
            ) by {
                if q < m {
                    assert(new_work_v[q] == work_v[q]);
                } else {
                    assert(new_work_v[q] == work_v[q + 1]);
                }
            }
            assert forall|p: int, q: int|
                0 <= p < out@.len() && 0 <= q < work@.len() implies leq(
                (#[trigger] out@[p])@,
                (#[trigger] work@[q])@,
            ) by {
                assert((out@[p])@ == new_out_v[p]);
                assert((work@[q])@ == new_work_v[q]);
                if p < out_v.len() {
                    assert(leq(new_out_v[p], x_v));
                    assert(leq(x_v, new_work_v[q]));
                    crate::text::lemma_lex_trans(new_out_v[p], x_v, new_work_v[q]);
                } else {
                    assert(new_out_v[p] == x_v);
                }
            }
        }
    }
    proof {
        assert(work@.map_values(|s: String| s@).to_multiset() =~= Multiset::<Seq<char>>::empty());
        assert(out@.map_values(|s: String| s@).to_multiset() =~= orig.to_multiset());
    }
    out
}

/// The UTF-8 bytes of the identifiers, concatenated in order.
pub open spec fn spec_concat_utf8(ids: Seq<Seq<char>>) -> Seq<u8>
    decreases ids.len(),
{
    if ids.len() == 0 {
        Seq::empty()
    } else {
        spec_concat_utf8(ids.drop_last()) + vstd::utf8::encode_utf8(ids.last())
    }
}

/// The first four digest bytes as eight hex characters.
pub open spec fn spec_short_hex(d: Seq<u8>) -> Seq<char> {
    if d.len() >= 4 {
        spec_hex_str(d.subrange(0, 4))
    } else {
        spec_hex_str(d)
    }
}

/// The trust-store fingerprint: the key identifiers in sorted order,
/// UTF-8 concatenated, hashed with SHA-256, the first four bytes rendered
/// as eight hex characters.
pub open spec fn spec_fingerprint(ts: TrustStore) -> Seq<char> {
    spec_short_hex(
        spec_sha256(spec_concat_utf8(spec_keyids(ts).sort_by(spec_lex_leq_fn()))),
    )
}

impl TrustStore {
    /// Compute the store's fingerprint, the cache-key component that
    /// changes whenever the set of key identifiers changes.
    #[verifier::loop_isolation(false)]
    pub fn fingerprint(&self) -> (r: String)
        ensures
            r@ == spec_fingerprint(*self),
    {
        let ids = self.keyid_vec();
        let sorted = sort_strings(ids);
        let ghost leq = spec_lex_leq_fn();
        let ghost sorted_v = sorted@.map_values(|s: String| s@);
        proof {
            lemma_lex_total_ordering();
            spec_keyids(*self).lemma_sort_by_ensures(leq);
            lemma_sorted_unique(sorted_v, spec_keyids(*self).sort_by(leq), leq);
        }
        let n = sorted.len();
        let mut buf: Vec<u8> = Vec::new();
        let mut i: usize = 0;
        while i < n
            invariant
                i <= n,
                n == sorted@.len(),
                sorted_v == sorted@.map_values(|s: String| s@),
                buf@ == spec_concat_utf8(sorted_v.take(i as int)),
            decreases n - i,
        {
            let mut piece = sorted[i].as_str().as_bytes_vec();
            buf.append(&mut piece);
            proof {
                assert(sorted_v.take(i + 1).drop_last() =~= sorted_v.take(i as int));
                assert(sorted_v.take(i + 1).last() == sorted_v[i as int]);
            }
            i += 1;
        }
        proof {
            assert(sorted_v.take(n as int) =~= sorted_v);
        }
        let digest = sha256(buf.as_slice());
        let mut head: Vec<u8> = Vec::new();
        head.push(digest[0]);
        head.push(digest[1]);
        head.push(digest[2]);
        head.push(digest[3]);
        proof {
            assert(head@ =~= digest@.subrange(0, 4));
        }
        encode_hex(head.as_slice())
    }
}

/// The fingerprint is a function of the multiset of key identifiers:
/// stores holding the same identifiers, in any order, fingerprint alike.
pub proof fn lemma_fingerprint_multiset(ts1: TrustStore, ts2: TrustStore)
    requires
        spec_keyids(ts1).to_multiset() == spec_keyids(ts2).to_multiset(),
    ensures
        spec_fingerprint(ts1) == spec_fingerprint(ts2),
{
    let leq = spec_lex_leq_fn();
    lemma_lex_total_ordering();
    spec_keyids(ts1).lemma_sort_by_ensures(leq);
    spec_keyids(ts2).lemma_sort_by_ensures(leq);
    lemma_sorted_unique(
        spec_keyids(ts1).sort_by(leq),
        spec_keyids(ts2).sort_by(leq),
        leq,
    );
}

} // verus!
