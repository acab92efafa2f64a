//! A small scanning theory: the first `Some` that a function yields over a
//! sequence. Every pipeline check reports the first failing item, and every
//! trust-store lookup returns the first match, so the loops of this crate
//! are all proved against this one spec.

use vstd::prelude::*;

verus! {

/// The first `Some` of `f` over `s`, scanning left to right.
pub open spec fn spec_first_some<T, R>(s: Seq<T>, f: spec_fn(T) -> Option<R>) -> Option<R>
    decreases s.len(),
{
    if s.len() == 0 {
        None
    } else if f(s.first()) is Some {
        f(s.first())
    } else {
        spec_first_some(s.drop_first(), f)
    }
}

/// Scanning may start after any prefix on which `f` yields nothing.
pub proof fn lemma_first_some_skip<T, R>(s: Seq<T>, f: spec_fn(T) -> Option<R>, i: int)
    requires
        0 <= i <= s.len(),
        forall|k: int| 0 <= k < i ==> f(#[trigger] s[k]) is None,
    ensures
        spec_first_some(s, f) == spec_first_some(s.skip(i), f),
    decreases i,
{
    if i > 0 {
        assert(f(s.first()) is None);
        assert(forall|k: int| 0 <= k < i - 1 ==> f(#[trigger] s.drop_first()[k]) is None) by {
            assert(forall|k: int| 0 <= k < i - 1 ==> s.drop_first()[k] == s[k + 1]);
        }
        lemma_first_some_skip(s.drop_first(), f, i - 1);
        assert(s.drop_first().skip(i - 1) =~= s.skip(i));
    } else {
        assert(s.skip(0) =~= s);
    }
}

/// At the first item on which `f` yields a value, the scan is decided.
pub proof fn lemma_first_some_found<T, R>(s: Seq<T>, f: spec_fn(T) -> Option<R>, i: int)
    requires
        0 <= i < s.len(),
        forall|k: int| 0 <= k < i ==> f(#[trigger] s[k]) is None,
        f(s[i]) is Some,
    ensures
        spec_first_some(s, f) == f(s[i]),
{
    lemma_first_some_skip(s, f, i);
    assert(s.skip(i).first() == s[i]);
}

/// When `f` yields nothing anywhere, the scan yields nothing.
pub proof fn lemma_first_some_none<T, R>(s: Seq<T>, f: spec_fn(T) -> Option<R>)
    requires
        forall|k: int| 0 <= k < s.len() ==> f(#[trigger] s[k]) is None,
    ensures
        spec_first_some(s, f) is None,
{
    lemma_first_some_skip(s, f, s.len() as int);
    assert(s.skip(s.len() as int) =~= Seq::<T>::empty());
}

/// A decided scan is the value of `f` at some item.
pub proof fn lemma_first_some_witness<T, R>(s: Seq<T>, f: spec_fn(T) -> Option<R>)
    requires
        spec_first_some(s, f) is Some,
    ensures
        exists|i: int| 0 <= i < s.len() && f(#[trigger] s[i]) == spec_first_some(s, f),
    decreases s.len(),
{
    if s.len() > 0 {
        if f(s.first()) is Some {
            assert(f(s[0]) == spec_first_some(s, f));
        } else {
            lemma_first_some_witness(s.drop_first(), f);
            let i = choose|i: int|
                0 <= i < s.drop_first().len() && f(#[trigger] s.drop_first()[i])
                    == spec_first_some(s.drop_first(), f);
            assert(f(s[i + 1]) == spec_first_some(s, f));
        }
    }
}

} // verus!
