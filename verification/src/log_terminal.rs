//! The diagnostics that close a run.

use vstd::prelude::*;
use vstd::seq_lib::*;
use crate::log_event::{DiagnosticOccurrence, DiagnosticOccurrenceId};

verus! {

/// A diagnostic that has its number and waits for the end of the run.
#[derive(Debug, PartialEq, Eq)]
pub struct PreparedTerminalDiagnostic {
    occurrence: DiagnosticOccurrence,
}

impl PreparedTerminalDiagnostic {
    pub closed spec fn held(&self) -> DiagnosticOccurrence {
        self.occurrence
    }

    pub(crate) fn new(occurrence: DiagnosticOccurrence) -> (prepared: Self)
        ensures
            prepared.held() == occurrence,
    {
        PreparedTerminalDiagnostic { occurrence }
    }

    pub fn id(&self) -> (id: DiagnosticOccurrenceId)
        ensures
            id == self.held().identity(),
    {
        self.occurrence.id()
    }

    pub(crate) fn into_occurrence(self) -> (occurrence: DiagnosticOccurrence)
        ensures
            occurrence == self.held(),
    {
        self.occurrence
    }
}

/// The prepared occurrences.
pub open spec fn occurrences_of(prepared: Seq<PreparedTerminalDiagnostic>) -> Seq<
    DiagnosticOccurrence,
> {
    prepared.map_values(|p: PreparedTerminalDiagnostic| p.held())
}

/// The numbers of the occurrences.
pub open spec fn numbers_of(occurrences: Seq<DiagnosticOccurrence>) -> Seq<u64> {
    occurrences.map_values(|o: DiagnosticOccurrence| o.identity().number())
}

pub open spec fn ascending(numbers: Seq<u64>) -> bool {
    forall|i: int, j: int| 0 <= i < j < numbers.len() ==> #[trigger] numbers[i] <= #[trigger] numbers[j]
}

pub open spec fn strictly_ascending(numbers: Seq<u64>) -> bool {
    forall|i: int, j: int| 0 <= i < j < numbers.len() ==> #[trigger] numbers[i] < #[trigger] numbers[j]
}

/// Whether `number` stands in the list more than once.
pub open spec fn repeated(numbers: Seq<u64>, number: u64) -> bool {
    numbers.to_multiset().count(number) >= 2
}

/// Whether `number` is the smallest of those that stand in the list more than once.
pub open spec fn least_repeated(numbers: Seq<u64>, number: u64) -> bool {
    repeated(numbers, number) && forall|other: u64| #[trigger]
        repeated(numbers, other) ==> number <= other
}

proof fn lemma_numbers_pushed(occurrences: Seq<DiagnosticOccurrence>, occurrence: DiagnosticOccurrence)
    ensures
        numbers_of(occurrences.push(occurrence)) == numbers_of(occurrences).push(
            occurrence.identity().number(),
        ),
{
    assert(numbers_of(occurrences.push(occurrence)) =~= numbers_of(occurrences).push(
        occurrence.identity().number(),
    ));
}

/// Puts the diagnostics in the order of their numbers.
pub fn in_order_of_number(prepared: Vec<PreparedTerminalDiagnostic>) -> (ordered: Vec<
    DiagnosticOccurrence,
>)
    ensures
        ascending(numbers_of(ordered@)),
        ordered@.to_multiset() == occurrences_of(prepared@).to_multiset(),
        numbers_of(ordered@).to_multiset() == numbers_of(
            occurrences_of(prepared@),
        ).to_multiset(),
{
    let mut rest = prepared;
    let mut ordered: Vec<DiagnosticOccurrence> = Vec::new();
    let ghost all = occurrences_of(prepared@);
    proof {
        assert(numbers_of(ordered@) =~= Seq::<u64>::empty());
        assert(occurrences_of(rest@).to_multiset().add(ordered@.to_multiset())
            =~= all.to_multiset()) by {
            to_multiset_len(ordered@);
        }
        assert(numbers_of(occurrences_of(rest@)).to_multiset().add(
            numbers_of(ordered@).to_multiset(),
        ) =~= numbers_of(all).to_multiset()) by {
            to_multiset_len(numbers_of(ordered@));
        }
    }
    while rest.len() > 0
        invariant
            ascending(numbers_of(ordered@)),
            occurrences_of(rest@).to_multiset().add(ordered@.to_multiset()) == all.to_multiset(),
            numbers_of(occurrences_of(rest@)).to_multiset().add(numbers_of(ordered@).to_multiset())
                == numbers_of(all).to_multiset(),
        decreases rest.len(),
    {
        let ghost before = rest@;
        let ghost earlier = ordered@;
        let occurrence = match rest.pop() {
            Some(prepared) => prepared.into_occurrence(),
            None => {
                return ordered;
            },
        };
        let number: u64 = occurrence.id().get();
        let mut place: usize = 0;
        while place < ordered.len() && ordered[place].id().get() <= number
            invariant
                ordered@ == earlier,
                place <= ordered.len(),
                forall|k: int| 0 <= k < place ==> #[trigger] numbers_of(ordered@)[k] <= number,
            decreases ordered.len() - place,
        {
            place += 1;
        }
        proof {
            assert(before =~= rest@.push(before.last()));
            assert(occurrences_of(before) =~= occurrences_of(rest@).push(occurrence));
            lemma_numbers_pushed(occurrences_of(rest@), occurrence);
            to_multiset_build(occurrences_of(rest@), occurrence);
            to_multiset_build(numbers_of(occurrences_of(rest@)), number);
            to_multiset_insert(earlier, place as int, occurrence);
            to_multiset_insert(numbers_of(earlier), place as int, number);
        }
        ordered.insert(place, occurrence);
        proof {
            let numbers = numbers_of(earlier);
            assert(numbers_of(ordered@) =~= numbers.insert(place as int, number));
            assert(occurrences_of(rest@).to_multiset().add(ordered@.to_multiset())
                =~= occurrences_of(before).to_multiset().add(earlier.to_multiset()));
            assert(numbers_of(occurrences_of(rest@)).to_multiset().add(
                numbers_of(ordered@).to_multiset(),
            ) =~= numbers_of(occurrences_of(before)).to_multiset().add(numbers.to_multiset()));
            assert forall|i: int, j: int| 0 <= i < j < numbers_of(ordered@).len() implies
                #[trigger] numbers_of(ordered@)[i] <= #[trigger] numbers_of(ordered@)[j] by {
                let i0 = if i < place { i } else { i - 1 };
                let j0 = if j < place { j } else { j - 1 };
                if i == place {
                    if j0 > place as int {
                        assert(numbers[place as int] <= numbers[j0]);
                    }
                } else if j == place {
                    assert(numbers[i0] <= number);
                } else {
                    assert(numbers[i0] <= numbers[j0]);
                }
            }
        }
    }
    proof {
        assert(occurrences_of(rest@) =~= Seq::<DiagnosticOccurrence>::empty());
        assert(numbers_of(occurrences_of(rest@)) =~= Seq::<u64>::empty());
        to_multiset_len(occurrences_of(rest@));
        to_multiset_len(numbers_of(occurrences_of(rest@)));
        assert(occurrences_of(rest@).to_multiset().add(ordered@.to_multiset())
            =~= ordered@.to_multiset());
        assert(numbers_of(occurrences_of(rest@)).to_multiset().add(numbers_of(ordered@).to_multiset())
            =~= numbers_of(ordered@).to_multiset());
    }
    ordered
}

/// In an ascending list equal neighbours are a repetition.
proof fn lemma_neighbours(numbers: Seq<u64>, i: int)
    requires
        0 <= i,
        i + 1 < numbers.len(),
        numbers[i] == numbers[i + 1],
    ensures
        repeated(numbers, numbers[i]),
{
    let shorter = numbers.remove(i);
    to_multiset_remove(numbers, i);
    assert(shorter[i] == numbers[i]);
    assert(shorter.contains(numbers[i]));
    to_multiset_contains(shorter, numbers[i]);
    to_multiset_contains(numbers, numbers[i]);
    assert(numbers.contains(numbers[i]));
}

/// A number that is repeated stands at two places.
pub proof fn lemma_two_places(numbers: Seq<u64>, number: u64) -> (places: (int, int))
    requires
        repeated(numbers, number),
    ensures
        0 <= places.0 < places.1 < numbers.len(),
        numbers[places.0] == number,
        numbers[places.1] == number,
{
    to_multiset_contains(numbers, number);
    let i = choose|i: int| 0 <= i < numbers.len() && numbers[i] == number;
    to_multiset_remove(numbers, i);
    let shorter = numbers.remove(i);
    to_multiset_contains(shorter, number);
    let k = choose|k: int| 0 <= k < shorter.len() && shorter[k] == number;
    if k < i {
        (k, i)
    } else {
        (i, k + 1)
    }
}

/// The first diagnostic, in the order of numbers, that is repeated.
pub fn first_repetition(ordered: &Vec<DiagnosticOccurrence>) -> (found: Option<DiagnosticOccurrenceId>)
    requires
        ascending(numbers_of(ordered@)),
    ensures
        match found {
            Some(id) => least_repeated(numbers_of(ordered@), id.number()),
            None => {
                &&& strictly_ascending(numbers_of(ordered@))
                &&& forall|number: u64| !#[trigger] repeated(numbers_of(ordered@), number)
            },
        },
{
    let ghost numbers = numbers_of(ordered@);
    let mut i: usize = 1;
    while i < ordered.len()
        invariant
            1 <= i,
            numbers == numbers_of(ordered@),
            ascending(numbers),
            forall|k: int| 0 <= k && k + 1 < i && k + 1 < numbers.len() ==> #[trigger] numbers[k] < numbers[k
                + 1],
        decreases ordered.len() - i,
    {
        let previous: u64 = ordered[i - 1].id().get();
        let current: u64 = ordered[i].id().get();
        assert(numbers[i - 1] == previous && numbers[i as int] == current);
        if previous == current {
            proof {
                lemma_neighbours(numbers, i - 1);
                assert forall|other: u64| #[trigger] repeated(numbers, other) implies current <= other by {
                    let places = lemma_two_places(numbers, other);
                    if other < current {
                        assert(places.1 < i - 1) by {
                            if i - 1 < places.1 {
                                assert(numbers[i - 1] <= numbers[places.1]);
                            }
                        }
                        assert(numbers[places.0] < numbers[places.0 + 1]);
                        if places.0 + 1 < places.1 {
                            assert(numbers[places.0 + 1] <= numbers[places.1]);
                        }
                    }
                }
            }
            return Some(ordered[i].id());
        }
        i += 1;
    }
    proof {
        assert forall|a: int, b: int| 0 <= a < b < numbers.len() implies #[trigger] numbers[a]
            < #[trigger] numbers[b] by {
            assert(numbers[a] < numbers[a + 1]);
            if a + 1 < b {
                assert(numbers[a + 1] <= numbers[b]);
            }
        }
        assert forall|number: u64| !#[trigger] repeated(numbers, number) by {
            if repeated(numbers, number) {
                let places = lemma_two_places(numbers, number);
            }
        }
    }
    None
}

} // verus!
