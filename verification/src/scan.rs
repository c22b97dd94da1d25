use vstd::prelude::*;

verus! {

/// Position of the first element of `s` that satisfies `p`; `s.len()` when there is none.
pub open spec fn first_match<T>(s: Seq<T>, p: spec_fn(T) -> bool) -> int
    decreases s.len(),
{
    if s.len() == 0 {
        0
    } else if p(s[0]) {
        0
    } else {
        1 + first_match(s.drop_first(), p)
    }
}

/// Position of the last element of `s` that satisfies `p`; `-1` when there is none.
pub open spec fn last_match<T>(s: Seq<T>, p: spec_fn(T) -> bool) -> int
    decreases s.len(),
{
    if s.len() == 0 {
        -1
    } else if p(s.last()) {
        s.len() - 1
    } else {
        last_match(s.drop_last(), p)
    }
}

/// Number of elements of `s` that satisfy `p`.
pub open spec fn count_matches<T>(s: Seq<T>, p: spec_fn(T) -> bool) -> nat
    decreases s.len(),
{
    if s.len() == 0 {
        0
    } else {
        count_matches(s.drop_last(), p) + if p(s.last()) {
            1nat
        } else {
            0nat
        }
    }
}

/// `first_match` lies within `0..=len`, nothing before it matches, and the element
/// at it matches whenever it is a position of `s`.
pub proof fn lemma_first_match<T>(s: Seq<T>, p: spec_fn(T) -> bool)
    ensures
        0 <= first_match(s, p) <= s.len(),
        forall|j: int| 0 <= j < first_match(s, p) ==> !p(#[trigger] s[j]),
        first_match(s, p) < s.len() ==> p(s[first_match(s, p)]),
    decreases s.len(),
{
    if s.len() != 0 && !p(s[0]) {
        let t = s.drop_first();
        lemma_first_match(t, p);
        assert forall|j: int| 0 <= j < first_match(s, p) implies !p(#[trigger] s[j]) by {
            if j > 0 {
                assert(s[j] == t[j - 1]);
            }
        }
        assert(first_match(s, p) < s.len() ==> s[first_match(s, p)] == t[first_match(t, p)]);
    }
}

/// A position before which nothing matches, and which matches itself unless it is the
/// length, is the `first_match`.
pub proof fn lemma_first_match_is<T>(s: Seq<T>, p: spec_fn(T) -> bool, k: int)
    requires
        0 <= k <= s.len(),
        forall|j: int| 0 <= j < k ==> !p(#[trigger] s[j]),
        k < s.len() ==> p(s[k]),
    ensures
        first_match(s, p) == k,
    decreases s.len(),
{
    if s.len() != 0 && k > 0 {
        let t = s.drop_first();
        assert(!p(s[0]));
        assert forall|j: int| 0 <= j < k - 1 implies !p(#[trigger] t[j]) by {
            assert(t[j] == s[j + 1]);
        }
        lemma_first_match_is(t, p, k - 1);
    }
}

/// `last_match` lies within `-1..len`, nothing after it matches, and the element at it
/// matches whenever it is a position of `s`.
pub proof fn lemma_last_match<T>(s: Seq<T>, p: spec_fn(T) -> bool)
    ensures
        -1 <= last_match(s, p) < s.len(),
        forall|j: int| last_match(s, p) < j < s.len() ==> !p(#[trigger] s[j]),
        0 <= last_match(s, p) ==> p(s[last_match(s, p)]),
    decreases s.len(),
{
    if s.len() != 0 && !p(s.last()) {
        let t = s.drop_last();
        lemma_last_match(t, p);
        assert forall|j: int| last_match(s, p) < j < s.len() implies !p(#[trigger] s[j]) by {
            if j < s.len() - 1 {
                assert(s[j] == t[j]);
            }
        }
        assert(0 <= last_match(s, p) ==> s[last_match(s, p)] == t[last_match(t, p)]);
    }
}

/// A position after which nothing matches, and which matches itself unless it is `-1`,
/// is the `last_match`.
pub proof fn lemma_last_match_is<T>(s: Seq<T>, p: spec_fn(T) -> bool, k: int)
    requires
        -1 <= k < s.len(),
        forall|j: int| k < j < s.len() ==> !p(#[trigger] s[j]),
        0 <= k ==> p(s[k]),
    ensures
        last_match(s, p) == k,
    decreases s.len(),
{
    if s.len() != 0 && k < s.len() - 1 {
        let t = s.drop_last();
        assert(!p(s[s.len() - 1]));
        assert forall|j: int| k < j < t.len() implies !p(#[trigger] t[j]) by {
            assert(t[j] == s[j]);
        }
        if 0 <= k {
            assert(t[k] == s[k]);
        }
        lemma_last_match_is(t, p, k);
    }
}

/// Two sequences of one length on whose elements `p` agrees position by position have
/// the same `first_match`.
pub proof fn lemma_first_match_agree<T>(s: Seq<T>, t: Seq<T>, p: spec_fn(T) -> bool)
    requires
        s.len() == t.len(),
        forall|j: int| 0 <= j < s.len() ==> p(#[trigger] s[j]) == p(t[j]),
    ensures
        first_match(s, p) == first_match(t, p),
{
    lemma_first_match(s, p);
    let k = first_match(s, p);
    assert forall|j: int| 0 <= j < k implies !p(#[trigger] t[j]) by {
        assert(p(s[j]) == p(t[j]));
    }
    if k < s.len() {
        assert(p(s[k]) == p(t[k]));
    }
    lemma_first_match_is(t, p, k);
}

/// Counting over a prefix extended by one element.
pub proof fn lemma_count_step<T>(s: Seq<T>, p: spec_fn(T) -> bool, i: int)
    requires
        0 <= i < s.len(),
    ensures
        count_matches(s.take(i + 1), p) == count_matches(s.take(i), p) + if p(s[i]) {
            1nat
        } else {
            0nat
        },
        count_matches(s.take(i), p) <= i,
    decreases i,
{
    assert(s.take(i + 1).drop_last() =~= s.take(i));
    assert(s.take(i + 1).last() == s[i]);
    if i > 0 {
        lemma_count_step(s, p, i - 1);
    }
}

/// Something is counted exactly when there is a first match.
pub proof fn lemma_count_positive<T>(s: Seq<T>, p: spec_fn(T) -> bool)
    ensures
        (count_matches(s, p) > 0) == (first_match(s, p) < s.len()),
    decreases s.len(),
{
    lemma_first_match(s, p);
    if s.len() != 0 {
        let t = s.drop_last();
        lemma_count_positive(t, p);
        lemma_first_match(t, p);
        if p(s.last()) {
            assert(p(s[s.len() - 1]));
        } else {
            let k = first_match(t, p);
            assert forall|j: int| 0 <= j < k implies !p(#[trigger] s[j]) by {
                assert(s[j] == t[j]);
            }
            if k < t.len() {
                assert(s[k] == t[k]);
                lemma_first_match_is(s, p, k);
            } else {
                lemma_first_match_is(s, p, k + 1);
            }
        }
    }
}

} // verus!
