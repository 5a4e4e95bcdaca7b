//! Lists that are taken apart item by item.

use vstd::prelude::*;

verus! {

/// The same items, last first.
pub fn in_reverse<T>(items: Vec<T>) -> (reversed: Vec<T>)
    ensures
        reversed.len() == items.len(),
        forall|k: int|
            0 <= k < items.len() ==> (#[trigger] reversed@[k]) == items@[items.len() - 1 - k],
{
    let ghost all = items@;
    let mut rest = items;
    let mut reversed: Vec<T> = Vec::new();
    while rest.len() > 0
        invariant
            rest.len() + reversed.len() == all.len(),
            rest@ == all.take(rest.len() as int),
            forall|k: int|
                0 <= k < reversed.len() ==> (#[trigger] reversed@[k]) == all[all.len() - 1 - k],
        decreases rest.len(),
    {
        if let Some(item) = rest.pop() {
            reversed.push(item);
        }
    }
    reversed
}

} // verus!
