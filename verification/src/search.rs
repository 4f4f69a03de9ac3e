//! The first element of a sequence that meets a condition.

use vstd::prelude::*;

verus! {

/// Whether `i` is the place of the first element of `s` that meets `wanted`.
pub open spec fn is_first<T>(s: Seq<T>, wanted: spec_fn(T) -> bool, i: int) -> bool {
    &&& 0 <= i < s.len()
    &&& wanted(s[i])
    &&& forall|j: int| 0 <= j < i ==> !wanted(#[trigger] s[j])
}

/// The place of the first element of `s` that meets `wanted`, if there is one.
pub open spec fn first_index<T>(s: Seq<T>, wanted: spec_fn(T) -> bool) -> Option<int> {
    if exists|i: int| is_first(s, wanted, i) {
        Some(choose|i: int| is_first(s, wanted, i))
    } else {
        None
    }
}

/// A sequence has at most one first match.
pub proof fn first_index_is<T>(s: Seq<T>, wanted: spec_fn(T) -> bool, i: int)
    requires
        is_first(s, wanted, i),
    ensures
        first_index(s, wanted) == Some(i),
{
}

/// Where no element meets the condition there is no first match, and conversely.
pub proof fn first_index_none<T>(s: Seq<T>, wanted: spec_fn(T) -> bool)
    ensures
        first_index(s, wanted) is None <==> forall|j: int| 0 <= j < s.len() ==> !wanted(#[trigger] s[j]),
{
    if first_index(s, wanted) is None {
        assert forall|j: int| 0 <= j < s.len() implies !wanted(#[trigger] s[j]) by {
            if wanted(s[j]) {
                first_match_below(s, wanted, j);
            }
        }
    }
}

/// An element that meets the condition has a first match at or before it.
pub proof fn first_match_below<T>(s: Seq<T>, wanted: spec_fn(T) -> bool, j: int)
    requires
        0 <= j < s.len(),
        wanted(s[j]),
    ensures
        first_index(s, wanted) matches Some(i) && is_first(s, wanted, i) && i <= j,
    decreases j,
{
    if forall|k: int| 0 <= k < j ==> !wanted(#[trigger] s[k]) {
        first_index_is(s, wanted, j);
    } else {
        let k = choose|k: int| 0 <= k < j && wanted(#[trigger] s[k]);
        first_match_below(s, wanted, k);
    }
}

} // verus!
