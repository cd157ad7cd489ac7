//! Searching a sequence for the first element of a kind.

use vstd::prelude::*;

verus! {

/// The index of the first of the first `n` elements of `s` that satisfies
/// `wanted`.
pub open spec fn first_index<T>(s: Seq<T>, n: int, wanted: spec_fn(T) -> bool) -> Option<int>
    decreases n,
{
    if n <= 0 {
        None
    } else {
        match first_index(s, n - 1, wanted) {
            Some(i) => Some(i),
            None => if wanted(s[n - 1]) {
                Some(n - 1)
            } else {
                None
            },
        }
    }
}

/// The first element of `s` that satisfies `wanted`.
pub open spec fn first_match<T>(s: Seq<T>, wanted: spec_fn(T) -> bool) -> Option<int> {
    first_index(s, s.len() as int, wanted)
}

/// What `first_index` finds is wanted and nothing before it is; it finds
/// nothing only where nothing is wanted.
pub proof fn lemma_first_index<T>(s: Seq<T>, n: int, wanted: spec_fn(T) -> bool)
    requires
        0 <= n <= s.len(),
    ensures
        match first_index(s, n, wanted) {
            Some(i) => 0 <= i < n && wanted(s[i]) && forall|j: int| 0 <= j < i ==> !wanted(s[j]),
            None => forall|j: int| 0 <= j < n ==> !wanted(s[j]),
        },
    decreases n,
{
    if n > 0 {
        lemma_first_index(s, n - 1, wanted);
    }
}

/// Once a wanted element is among the first `n`, looking further does not
/// change which one is first.
pub proof fn lemma_first_index_stable<T>(s: Seq<T>, n: int, m: int, wanted: spec_fn(T) -> bool)
    requires
        0 <= n <= m,
        first_index(s, n, wanted).is_some(),
    ensures
        first_index(s, m, wanted) == first_index(s, n, wanted),
    decreases m - n,
{
    if n < m {
        lemma_first_index_stable(s, n, m - 1, wanted);
    }
}

/// Appending an element changes the first match only where there was none.
pub proof fn lemma_first_match_push<T>(s: Seq<T>, x: T, wanted: spec_fn(T) -> bool)
    ensures
        first_match(s.push(x), wanted) == match first_match(s, wanted) {
            Some(i) => Some(i),
            None => if wanted(x) {
                Some(s.len() as int)
            } else {
                None
            },
        },
{
    lemma_first_index_prefix(s, s.push(x), s.len() as int, wanted);
}

/// Two sequences that agree on their first `n` elements have the same first
/// match among those.
pub proof fn lemma_first_index_prefix<T>(s: Seq<T>, t: Seq<T>, n: int, wanted: spec_fn(T) -> bool)
    requires
        0 <= n <= s.len(),
        n <= t.len(),
        forall|i: int| 0 <= i < n ==> s[i] == t[i],
    ensures
        first_index(s, n, wanted) == first_index(t, n, wanted),
    decreases n,
{
    if n > 0 {
        lemma_first_index_prefix(s, t, n - 1, wanted);
    }
}

} // verus!
