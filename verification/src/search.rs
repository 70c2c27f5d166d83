//! Linear search for the first occurrence of a value.

use vstd::prelude::*;

verus! {

/// Whether `i` is the position of the first element of `s` equal to `target`.
pub open spec fn is_first_occurrence(s: Seq<i32>, target: i32, i: int) -> bool {
    &&& 0 <= i < s.len()
    &&& s[i] == target
    &&& forall|j: int| 0 <= j < i ==> s[j] != target
}

/// The position of the first element of `s` equal to `target`, if any
/// element is.
pub open spec fn first_occurrence(s: Seq<i32>, target: i32) -> Option<int> {
    if s.contains(target) {
        Some(choose|i: int| is_first_occurrence(s, target, i))
    } else {
        None
    }
}

/// A sequence has at most one first occurrence of a value.
pub proof fn lemma_first_occurrence_unique(s: Seq<i32>, target: i32, i: int, k: int)
    requires
        is_first_occurrence(s, target, i),
        is_first_occurrence(s, target, k),
    ensures
        i == k,
{
    if i < k {
        assert(s[i] != target);
    } else if k < i {
        assert(s[k] != target);
    }
}

/// Where `i` is the position of a first occurrence, `first_occurrence`
/// names exactly that position.
pub proof fn lemma_first_occurrence_at(s: Seq<i32>, target: i32, i: int)
    requires
        is_first_occurrence(s, target, i),
    ensures
        first_occurrence(s, target) == Some(i),
{
    assert(s.contains(target));
    let c = choose|c: int| is_first_occurrence(s, target, c);
    lemma_first_occurrence_unique(s, target, i, c);
}

/// Searches `numbers` from the front for `target`.
///
/// Returns the index of the first element equal to `target`, or `None`
/// when no element equals it.
pub fn find_number(numbers: &[i32], target: i32) -> (found: Option<usize>)
    ensures
        found is Some <==> numbers@.contains(target),
        found matches Some(i) ==> is_first_occurrence(numbers@, target, i as int),
        first_occurrence(numbers@, target) == match found {
            Some(i) => Some(i as int),
            None => None,
        },
{
    let mut i: usize = 0;
    while i < numbers.len()
        invariant
            i <= numbers@.len(),
            forall|j: int| 0 <= j < i ==> numbers@[j] != target,
        decreases numbers@.len() - i,
    {
        if numbers[i] == target {
            proof {
                lemma_first_occurrence_at(numbers@, target, i as int);
            }
            return Some(i);
        }
        i += 1;
    }
    None
}

} // verus!
