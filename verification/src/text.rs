//! Verified text utilities: character-exact string comparison, appending
//! single characters, and decimal formatting of counters.
//!
//! Strings cross the trust boundary often (key identifiers, digests, log
//! identifiers), so equality and construction are verified down to the
//! character here rather than trusted.

use vstd::prelude::*;

verus! {

/// Character-exact equality of two string slices.
pub fn str_eq(a: &str, b: &str) -> (r: bool)
    ensures
        r == (a@ == b@),
{
    let alen = a.unicode_len();
    let blen = b.unicode_len();
    if alen != blen {
        assert(a@ != b@) by {
            assert(a@.len() != b@.len());
        }
        return false;
    }
    let mut i: usize = 0;
    while i < alen
        invariant
            alen == a@.len(),
            alen == b@.len(),
            i <= alen,
            forall|j: int| 0 <= j < i ==> a@[j] == b@[j],
        decreases alen - i,
    {
        if a.get_char(i) != b.get_char(i) {
            return false;
        }
        i += 1;
    }
    proof {
        assert(a@ =~= b@);
    }
    true
}

/// The hexadecimal digit character for a value below sixteen, lower case.
pub open spec fn spec_hex_char(n: u8) -> char
    recommends
        n < 16,
{
    if n == 0 {
        '0'
    } else if n == 1 {
        '1'
    } else if n == 2 {
        '2'
    } else if n == 3 {
        '3'
    } else if n == 4 {
        '4'
    } else if n == 5 {
        '5'
    } else if n == 6 {
        '6'
    } else if n == 7 {
        '7'
    } else if n == 8 {
        '8'
    } else if n == 9 {
        '9'
    } else if n == 10 {
        'a'
    } else if n == 11 {
        'b'
    } else if n == 12 {
        'c'
    } else if n == 13 {
        'd'
    } else if n == 14 {
        'e'
    } else {
        'f'
    }
}

/// Append the hexadecimal digit character for `n` to `s`.
pub fn push_hex_char(s: &mut String, n: u8)
    requires
        n < 16,
    ensures
        final(s)@ == old(s)@.push(spec_hex_char(n)),
{
    proof {
        reveal_strlit("0");
        reveal_strlit("1");
        reveal_strlit("2");
        reveal_strlit("3");
        reveal_strlit("4");
        reveal_strlit("5");
        reveal_strlit("6");
        reveal_strlit("7");
        reveal_strlit("8");
        reveal_strlit("9");
        reveal_strlit("a");
        reveal_strlit("b");
        reveal_strlit("c");
        reveal_strlit("d");
        reveal_strlit("e");
        reveal_strlit("f");
    }
    if n == 0 {
        s.append("0");
    } else if n == 1 {
        s.append("1");
    } else if n == 2 {
        s.append("2");
    } else if n == 3 {
        s.append("3");
    } else if n == 4 {
        s.append("4");
    } else if n == 5 {
        s.append("5");
    } else if n == 6 {
        s.append("6");
    } else if n == 7 {
        s.append("7");
    } else if n == 8 {
        s.append("8");
    } else if n == 9 {
        s.append("9");
    } else if n == 10 {
        s.append("a");
    } else if n == 11 {
        s.append("b");
    } else if n == 12 {
        s.append("c");
    } else if n == 13 {
        s.append("d");
    } else if n == 14 {
        s.append("e");
    } else {
        s.append("f");
    }
    proof {
        assert(s@ =~= old(s)@.push(spec_hex_char(n)));
    }
}

/// The decimal rendering of a natural number, without leading zeros.
pub open spec fn spec_dec_str(n: nat) -> Seq<char>
    decreases n,
{
    if n < 10 {
        seq![spec_hex_char(n as u8)]
    } else {
        spec_dec_str(n / 10).push(spec_hex_char((n % 10) as u8))
    }
}

/// Append the decimal rendering of `n` to `s`.
pub fn push_decimal(s: &mut String, n: u64)
    ensures
        final(s)@ == old(s)@ + spec_dec_str(n as nat),
    decreases n,
{
    if n < 10 {
        push_hex_char(s, n as u8);
        proof {
            assert(s@ =~= old(s)@ + spec_dec_str(n as nat));
        }
    } else {
        push_decimal(s, n / 10);
        push_hex_char(s, (n % 10) as u8);
        proof {
            assert(s@ =~= old(s)@ + spec_dec_str(n as nat));
        }
    }
}

/// The decimal rendering of a machine counter, as a fresh string.
pub fn decimal_string(n: u64) -> (r: String)
    ensures
        r@ == spec_dec_str(n as nat),
{
    let mut s = String::new();
    push_decimal(&mut s, n);
    proof {
        assert(s@ =~= spec_dec_str(n as nat));
    }
    s
}

/// Whether some string of the vector reads as `s`.
#[verifier::loop_isolation(false)]
pub fn contains_string(v: &Vec<String>, s: &str) -> (r: bool)
    ensures
        r == v@.map_values(|x: String| x@).contains(s@),
{
    let ghost vs = v@.map_values(|x: String| x@);
    let n = v.len();
    let mut i: usize = 0;
    while i < n
        invariant
            i <= n,
            n == v@.len(),
            vs == v@.map_values(|x: String| x@),
            forall|j: int| 0 <= j < i ==> vs[j] != s@,
        decreases n - i,
    {
        if str_eq(v[i].as_str(), s) {
            proof {
                assert(vs[i as int] == s@);
            }
            return true;
        }
        i += 1;
    }
    proof {
        assert(!vs.contains(s@));
    }
    false
}

/// The number of distinct string views in the vector.
#[verifier::loop_isolation(false)]
pub fn count_distinct(v: &Vec<String>) -> (r: usize)
    ensures
        r == v@.map_values(|x: String| x@).to_set().len(),
{
    let ghost vs = v@.map_values(|x: String| x@);
    let n = v.len();
    let mut seen: Vec<String> = Vec::new();
    let mut i: usize = 0;
    while i < n
        invariant
            i <= n,
            n == v@.len(),
            vs == v@.map_values(|x: String| x@),
            seen@.map_values(|x: String| x@).no_duplicates(),
            seen@.map_values(|x: String| x@).to_set() == vs.take(i as int).to_set(),
        decreases n - i,
    {
        let ghost old_seen = seen@.map_values(|x: String| x@);
        proof {
            broadcast use vstd::set::group_set_axioms;
            broadcast use vstd::seq_lib::group_seq_properties;
            broadcast use vstd::set_lib::group_set_properties;

            assert(vs.take(i + 1).drop_last() =~= vs.take(i as int));
            assert(vs.take(i + 1).last() == vs[i as int]);
            assert(vs.take(i + 1).to_set() =~= vs.take(i as int).to_set().insert(vs[i as int]));
        }
        if !contains_string(&seen, v[i].as_str()) {
            seen.push(v[i].clone());
            proof {
                broadcast use vstd::set::group_set_axioms;
                broadcast use vstd::seq_lib::group_seq_properties;
                broadcast use vstd::set_lib::group_set_properties;

                let new_seen = seen@.map_values(|x: String| x@);
                assert(new_seen =~= old_seen.push(vs[i as int]));
                assert(new_seen.no_duplicates()) by {
                    assert(forall|j: int|
                        0 <= j < old_seen.len() ==> #[trigger] old_seen[j] != vs[i as int]);
                }
                assert(new_seen.drop_last() =~= old_seen);
                assert(new_seen.to_set() =~= old_seen.to_set().insert(vs[i as int]));
                assert(new_seen.to_set() =~= vs.take(i + 1).to_set());
            }
        } else {
            proof {
                broadcast use vstd::set::group_set_axioms;

                assert(old_seen.to_set().contains(vs[i as int]));
                assert(vs.take(i as int).to_set().insert(vs[i as int]) =~= vs.take(
                    i as int,
                ).to_set());
                assert(old_seen.to_set() =~= vs.take(i + 1).to_set());
            }
        }
        i += 1;
    }
    proof {
        assert(vs.take(n as int) =~= vs);
        seen@.map_values(|x: String| x@).unique_seq_to_set();
    }
    seen.len()
}

/// Lexicographic order on character sequences, comparing code points.
pub open spec fn spec_lex_leq(a: Seq<char>, b: Seq<char>) -> bool
    decreases a.len(),
{
    if a.len() == 0 {
        true
    } else if b.len() == 0 {
        false
    } else if (a.first() as u32) < (b.first() as u32) {
        true
    } else if (a.first() as u32) > (b.first() as u32) {
        false
    } else {
        spec_lex_leq(a.drop_first(), b.drop_first())
    }
}

/// The order as a relation value, for vstd's sorting theory.
pub open spec fn spec_lex_leq_fn() -> spec_fn(Seq<char>, Seq<char>) -> bool {
    |a: Seq<char>, b: Seq<char>| spec_lex_leq(a, b)
}

pub proof fn lemma_lex_refl(a: Seq<char>)
    ensures
        spec_lex_leq(a, a),
    decreases a.len(),
{
    if a.len() > 0 {
        lemma_lex_refl(a.drop_first());
    }
}

pub proof fn lemma_lex_antisym(a: Seq<char>, b: Seq<char>)
    requires
        spec_lex_leq(a, b),
        spec_lex_leq(b, a),
    ensures
        a == b,
    decreases a.len(),
{
    if a.len() == 0 {
        assert(b.len() == 0);
        assert(a =~= b);
    } else {
        assert(b.len() > 0);
        assert(a.first() == b.first()) by {
            vstd::utf8::char_u32_cast(a.first(), a.first() as u32);
            vstd::utf8::char_u32_cast(b.first(), b.first() as u32);
        }
        lemma_lex_antisym(a.drop_first(), b.drop_first());
        assert(a =~= b) by {
            assert forall|i: int| 0 <= i < a.len() implies a[i] == b[i] by {
                if i > 0 {
                    assert(a.drop_first()[i - 1] == a[i]);
                    assert(b.drop_first()[i - 1] == b[i]);
                }
            }
        }
    }
}

pub proof fn lemma_lex_trans(a: Seq<char>, b: Seq<char>, c: Seq<char>)
    requires
        spec_lex_leq(a, b),
        spec_lex_leq(b, c),
    ensures
        spec_lex_leq(a, c),
    decreases a.len(),
{
    if a.len() > 0 && b.len() > 0 && c.len() > 0 {
        if a.first() as u32 == b.first() as u32 && b.first() as u32 == c.first() as u32 {
            lemma_lex_trans(a.drop_first(), b.drop_first(), c.drop_first());
        }
    }
}

pub proof fn lemma_lex_conn(a: Seq<char>, b: Seq<char>)
    ensures
        spec_lex_leq(a, b) || spec_lex_leq(b, a),
    decreases a.len(),
{
    if a.len() > 0 && b.len() > 0 && a.first() as u32 == b.first() as u32 {
        lemma_lex_conn(a.drop_first(), b.drop_first());
    }
}

/// The lexicographic order is total: vstd's sorting lemmas apply to it.
pub proof fn lemma_lex_total_ordering()
    ensures
        vstd::relations::total_ordering(spec_lex_leq_fn()),
{
    let r = spec_lex_leq_fn();
    assert forall|a: Seq<char>| #[trigger] r(a, a) by {
        lemma_lex_refl(a);
    }
    assert forall|a: Seq<char>, b: Seq<char>| #[trigger] r(a, b) && #[trigger] r(b, a) implies a
        == b by {
        lemma_lex_antisym(a, b);
    }
    assert forall|a: Seq<char>, b: Seq<char>, c: Seq<char>|
        #[trigger] r(a, b) && #[trigger] r(b, c) implies r(a, c) by {
        lemma_lex_trans(a, b, c);
    }
    assert forall|a: Seq<char>, b: Seq<char>| #[trigger] r(a, b) || #[trigger] r(b, a) by {
        lemma_lex_conn(a, b);
    }
}

proof fn lemma_lex_leq_skip(a: Seq<char>, b: Seq<char>, i: int)
    requires
        0 <= i <= a.len(),
        i <= b.len(),
        forall|k: int| 0 <= k < i ==> a[k] == b[k],
    ensures
        spec_lex_leq(a, b) == spec_lex_leq(a.skip(i), b.skip(i)),
    decreases i,
{
    if i > 0 {
        assert(a.first() == b.first());
        lemma_lex_leq_skip(a.drop_first(), b.drop_first(), i - 1);
        assert(a.drop_first().skip(i - 1) =~= a.skip(i));
        assert(b.drop_first().skip(i - 1) =~= b.skip(i));
    } else {
        assert(a.skip(0) =~= a);
        assert(b.skip(0) =~= b);
    }
}

/// Compare two string slices in lexicographic code-point order.
#[verifier::loop_isolation(false)]
pub fn str_lex_le(a: &str, b: &str) -> (r: bool)
    ensures
        r == spec_lex_leq(a@, b@),
{
    let alen = a.unicode_len();
    let blen = b.unicode_len();
    let mut i: usize = 0;
    while i < alen && i < blen
        invariant
            i <= alen,
            i <= blen,
            forall|k: int| 0 <= k < i ==> a@[k] == b@[k],
        decreases alen - i,
    {
        let ca = a.get_char(i);
        let cb = b.get_char(i);
        if ca == cb {
            i += 1;
        } else {
            proof {
                lemma_lex_leq_skip(a@, b@, i as int);
                assert(a@.skip(i as int).first() == ca);
                assert(b@.skip(i as int).first() == cb);
            }
            return (ca as u32) < (cb as u32);
        }
    }
    proof {
        lemma_lex_leq_skip(a@, b@, i as int);
        if i < blen {
            assert(a@.skip(i as int).len() == 0);
        } else {
            assert(b@.skip(i as int).len() == 0);
            if i < alen {
                assert(a@.skip(i as int).len() > 0);
            }
        }
    }
    i >= alen
}

} // verus!
