//! The first element of a sequence with a property.
use vstd::prelude::*;

verus! {

/// `i` is the index of the first element of `s` that satisfies `p`.
pub open spec fn is_first_index<A>(s: Seq<A>, p: spec_fn(A) -> bool, i: int) -> bool {
    &&& 0 <= i < s.len()
    &&& p(s[i])
    &&& forall|j: int| 0 <= j < i ==> !p(#[trigger] s[j])
}

/// The index of the first element of `s` that satisfies `p`, if any does.
pub open spec fn first_index<A>(s: Seq<A>, p: spec_fn(A) -> bool) -> Option<int> {
    if exists|i: int| is_first_index(s, p, i) {
        Some(choose|i: int| is_first_index(s, p, i))
    } else {
        None
    }
}

/// An index as an optional integer.
pub open spec fn index_opt(r: Option<usize>) -> Option<int> {
    match r {
        Some(i) => Some(i as int),
        None => None,
    }
}

/// The first index is the one found by a scan from the front.
pub proof fn lemma_first_index_found<A>(s: Seq<A>, p: spec_fn(A) -> bool, i: int)
    requires
        is_first_index(s, p, i),
    ensures
        first_index(s, p) == Some(i),
{
    let k = choose|k: int| is_first_index(s, p, k);
    assert(is_first_index(s, p, k));
    if k < i {
        assert(!p(s[k]));
    } else if i < k {
        assert(!p(s[i]));
    }
}

/// Where no element satisfies `p`, there is no first index.
pub proof fn lemma_first_index_none<A>(s: Seq<A>, p: spec_fn(A) -> bool)
    requires
        forall|j: int| 0 <= j < s.len() ==> !p(#[trigger] s[j]),
    ensures
        first_index(s, p) is None,
{
    if exists|i: int| is_first_index(s, p, i) {
        let i = choose|i: int| is_first_index(s, p, i);
        assert(p(s[i]));
    }
}

/// What `first_index` returns satisfies `p`, and no element before it does.
pub proof fn lemma_first_index_properties<A>(s: Seq<A>, p: spec_fn(A) -> bool)
    ensures
        first_index(s, p) matches Some(i) ==> is_first_index(s, p, i),
        first_index(s, p) is None ==> forall|j: int| 0 <= j < s.len() ==> !p(#[trigger] s[j]),
{
    if first_index(s, p) is None {
        assert forall|j: int| 0 <= j < s.len() implies !p(#[trigger] s[j]) by {
            if p(s[j]) {
                if exists|m: int| 0 <= m < j && p(s[m]) {
                    // the smallest such index is a first index
                    let m = choose|m: int| 0 <= m < j && p(s[m]);
                    lemma_smallest_exists(s, p, m);
                } else {
                    assert(is_first_index(s, p, j));
                }
            }
        }
    }
}

/// Where some element satisfies `p`, a first such element exists.
proof fn lemma_smallest_exists<A>(s: Seq<A>, p: spec_fn(A) -> bool, m: int)
    requires
        0 <= m < s.len(),
        p(s[m]),
    ensures
        exists|i: int| is_first_index(s, p, i),
    decreases m,
{
    if exists|k: int| 0 <= k < m && p(s[k]) {
        let k = choose|k: int| 0 <= k < m && p(s[k]);
        lemma_smallest_exists(s, p, k);
    } else {
        assert(is_first_index(s, p, m));
    }
}

}
