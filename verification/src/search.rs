//! Linear search over sequences: the position of the first element that
//! satisfies a predicate.

use vstd::prelude::*;

verus! {

/// Index of the first element of `s` that satisfies `p`, if there is one.
pub open spec fn first_index<T>(s: Seq<T>, p: spec_fn(T) -> bool) -> Option<int>
    decreases s.len(),
{
    if s.len() == 0 {
        None
    } else if p(s[0]) {
        Some(0)
    } else {
        match first_index(s.drop_first(), p) {
            Some(i) => Some(i + 1),
            None => None,
        }
    }
}

/// `i` is a valid index of `s`, `s[i]` satisfies `p`, and nothing before it does.
pub open spec fn is_first<T>(s: Seq<T>, p: spec_fn(T) -> bool, i: int) -> bool {
    &&& 0 <= i < s.len()
    &&& p(s[i])
    &&& forall|j: int| 0 <= j < i ==> !p(#[trigger] s[j])
}

/// No element of `s` satisfies `p`.
pub open spec fn none_satisfies<T>(s: Seq<T>, p: spec_fn(T) -> bool) -> bool {
    forall|j: int| 0 <= j < s.len() ==> !p(#[trigger] s[j])
}

/// `first_index` returns the least satisfying index, or `None` when no
/// element satisfies the predicate.
pub proof fn lemma_first_index<T>(s: Seq<T>, p: spec_fn(T) -> bool)
    ensures
        match first_index(s, p) {
            Some(i) => is_first(s, p, i),
            None => none_satisfies(s, p),
        },
    decreases s.len(),
{
    if s.len() != 0 && !p(s[0]) {
        let rest = s.drop_first();
        lemma_first_index(rest, p);
        match first_index(rest, p) {
            Some(i) => {
                assert forall|j: int| 0 <= j < i + 1 implies !p(#[trigger] s[j]) by {
                    if j > 0 {
                        assert(!p(rest[j - 1]));
                    }
                }
            },
            None => {
                assert forall|j: int| 0 <= j < s.len() implies !p(#[trigger] s[j]) by {
                    if j > 0 {
                        assert(!p(rest[j - 1]));
                    }
                }
            },
        }
    }
}

/// The least satisfying index is what `first_index` returns.
pub proof fn lemma_first_index_found<T>(s: Seq<T>, p: spec_fn(T) -> bool, i: int)
    requires
        is_first(s, p, i),
    ensures
        first_index(s, p) == Some(i),
{
    lemma_first_index(s, p);
}

/// Where nothing satisfies the predicate, `first_index` returns `None`.
pub proof fn lemma_first_index_absent<T>(s: Seq<T>, p: spec_fn(T) -> bool)
    requires
        none_satisfies(s, p),
    ensures
        first_index(s, p) is None,
{
    lemma_first_index(s, p);
}

} // verus!
