//! Searching a sequence for the first element with a property.
use vstd::prelude::*;

verus! {

/// The least position at or after `from` whose element satisfies `pred`.
pub open spec fn first_match<T>(s: Seq<T>, pred: spec_fn(T) -> bool, from: int) -> Option<int>
    decreases s.len() - from,
{
    if from < 0 || from >= s.len() {
        None
    } else if pred(s[from]) {
        Some(from)
    } else {
        first_match(s, pred, from + 1)
    }
}

/// The least position of `s` whose element satisfies `pred`.
pub open spec fn first_index<T>(s: Seq<T>, pred: spec_fn(T) -> bool) -> Option<int> {
    first_match(s, pred, 0)
}

/// What `first_match` returns is a match with no match before it; where it
/// returns nothing, there is no match.
pub proof fn lemma_first_match<T>(s: Seq<T>, pred: spec_fn(T) -> bool, from: int)
    requires
        0 <= from <= s.len(),
    ensures
        match first_match(s, pred, from) {
            Some(i) => {
                &&& from <= i < s.len()
                &&& pred(s[i])
                &&& forall|j: int| from <= j < i ==> !pred(#[trigger] s[j])
            },
            None => forall|j: int| from <= j < s.len() ==> !pred(#[trigger] s[j]),
        },
    decreases s.len() - from,
{
    if from < s.len() && !pred(s[from]) {
        lemma_first_match(s, pred, from + 1);
    }
}

/// A match with no match between `from` and it is what `first_match` returns.
pub proof fn lemma_first_match_found<T>(s: Seq<T>, pred: spec_fn(T) -> bool, from: int, at: int)
    requires
        0 <= from <= at < s.len(),
        pred(s[at]),
        forall|j: int| from <= j < at ==> !pred(#[trigger] s[j]),
    ensures
        first_match(s, pred, from) == Some(at),
    decreases at - from,
{
    if from < at {
        lemma_first_match_found(s, pred, from + 1, at);
    }
}

/// Where nothing from `from` on matches, `first_match` returns nothing.
pub proof fn lemma_first_match_none<T>(s: Seq<T>, pred: spec_fn(T) -> bool, from: int)
    requires
        0 <= from <= s.len(),
        forall|j: int| from <= j < s.len() ==> !pred(#[trigger] s[j]),
    ensures
        first_match(s, pred, from) is None,
    decreases s.len() - from,
{
    if from < s.len() {
        lemma_first_match_none(s, pred, from + 1);
    }
}

} // verus!
