//! The first position with a property.

use vstd::prelude::*;

verus! {

/// The smallest `i` with `from <= i < end` and `holds(i)`.
pub open spec fn first_such(holds: spec_fn(int) -> bool, from: int, end: int) -> Option<int>
    decreases end - from,
{
    if from >= end {
        None
    } else if holds(from) {
        Some(from)
    } else {
        first_such(holds, from + 1, end)
    }
}

pub proof fn lemma_first_found(holds: spec_fn(int) -> bool, from: int, end: int, found: int)
    requires
        from <= found < end,
        holds(found),
        forall|k: int| from <= k < found ==> !#[trigger] holds(k),
    ensures
        first_such(holds, from, end) == Some(found),
    decreases end - from,
{
    if from < found {
        lemma_first_found(holds, from + 1, end, found);
    }
}

pub proof fn lemma_first_absent(holds: spec_fn(int) -> bool, from: int, end: int)
    requires
        forall|k: int| from <= k < end ==> !#[trigger] holds(k),
    ensures
        first_such(holds, from, end) is None,
    decreases end - from,
{
    if from < end {
        lemma_first_absent(holds, from + 1, end);
    }
}

/// `first_such` is the smallest position with the property, and absent only when there is none.
pub proof fn lemma_first_meaning(holds: spec_fn(int) -> bool, from: int, end: int)
    ensures
        match first_such(holds, from, end) {
            Some(found) => from <= found < end && holds(found) && forall|k: int|
                from <= k < found ==> !#[trigger] holds(k),
            None => forall|k: int| from <= k < end ==> !#[trigger] holds(k),
        },
    decreases end - from,
{
    if from < end && !holds(from) {
        lemma_first_meaning(holds, from + 1, end);
    }
}

} // verus!
