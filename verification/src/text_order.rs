//! Lists of texts in the order of their code points.

use vstd::prelude::*;
use vstd::seq_lib::*;
use crate::order;
use crate::order::{order_of, Comparison};
use crate::text::characters;

verus! {

/// The texts as characters.
pub open spec fn texts(list: Seq<String>) -> Seq<Seq<char>> {
    list.map_values(|text: String| text@)
}

/// Whether no text comes after a later one.
pub open spec fn ascending(list: Seq<Seq<char>>) -> bool {
    forall|i: int, j: int|
        0 <= i < j < list.len() ==> !order::text_lt(#[trigger] list[j], #[trigger] list[i])
}

/// Whether every text comes before every later one.
pub open spec fn strictly_ascending(list: Seq<Seq<char>>) -> bool {
    forall|i: int, j: int|
        0 <= i < j < list.len() ==> order::text_lt(#[trigger] list[i], #[trigger] list[j])
}

/// Whether `text` stands in the list more than once.
pub open spec fn repeated(list: Seq<Seq<char>>, text: Seq<char>) -> bool {
    list.to_multiset().count(text) >= 2
}

/// Whether `text` is the first, in order, of those that stand in the list more than once.
pub open spec fn first_repeated(list: Seq<Seq<char>>, text: Seq<char>) -> bool {
    repeated(list, text) && forall|other: Seq<char>| #[trigger]
        repeated(list, other) ==> !order::text_lt(other, text)
}

fn compared(left: &str, right: &str) -> (result: Comparison)
    ensures
        result == Comparison::Less ==> order::text_lt(left@, right@),
        result == Comparison::Equal ==> left@ == right@,
        result == Comparison::Greater ==> order::text_lt(right@, left@),
{
    let left_chars = characters(left);
    let right_chars = characters(right);
    order_of(&left_chars, &right_chars)
}

proof fn lemma_before_excludes_after(a: Seq<char>, b: Seq<char>)
    requires
        order::text_lt(a, b),
    ensures
        !order::text_lt(b, a),
        a != b,
{
    if order::text_lt(b, a) {
        order::lemma_lex_transitive(order::codes(a), order::codes(b), order::codes(a));
    }
    order::lemma_lex_irreflexive(order::codes(a));
}

/// `a` is not after `b`, which is not after `c`: then `a` is not after `c`.
proof fn lemma_not_after(a: Seq<char>, b: Seq<char>, c: Seq<char>)
    requires
        !order::text_lt(b, a),
        !order::text_lt(c, b),
    ensures
        !order::text_lt(c, a),
{
    order::lemma_lex_trichotomy(order::codes(a), order::codes(b));
    order::lemma_lex_trichotomy(order::codes(b), order::codes(c));
    if order::text_lt(c, a) {
        if order::codes(a) == order::codes(b) {
        } else {
            order::lemma_lex_transitive(order::codes(c), order::codes(a), order::codes(b));
        }
    }
}

/// Puts the texts in order.
pub fn sorted(list: Vec<String>) -> (result: Vec<String>)
    ensures
        ascending(texts(result@)),
        texts(result@).to_multiset() == texts(list@).to_multiset(),
{
    let mut rest = list;
    let mut result: Vec<String> = Vec::new();
    let ghost all = texts(list@);
    proof {
        assert(texts(result@) =~= Seq::<Seq<char>>::empty());
        to_multiset_len(texts(result@));
        assert(texts(rest@).to_multiset().add(texts(result@).to_multiset()) =~= all.to_multiset());
    }
    while rest.len() > 0
        invariant
            ascending(texts(result@)),
            texts(rest@).to_multiset().add(texts(result@).to_multiset()) == all.to_multiset(),
        decreases rest.len(),
    {
        let ghost before = rest@;
        let ghost earlier = texts(result@);
        let ghost kept = result@;
        let text = match rest.pop() {
            Some(text) => text,
            None => {
                return result;
            },
        };
        let mut place: usize = 0;
        let mut found = false;
        while place < result.len() && !found
            invariant
                result@ == kept,
                earlier == texts(kept),
                place <= result.len(),
                ascending(earlier),
                forall|k: int| 0 <= k < place ==> !order::text_lt(text@, #[trigger] earlier[k]),
                found ==> place < result.len() && order::text_lt(text@, earlier[place as int]),
            decreases result.len() - place, if found { 0int } else { 1int },
        {
            assert(earlier[place as int] == result[place as int]@);
            match compared(result[place].as_str(), text.as_str()) {
                Comparison::Greater => {
                    found = true;
                },
                Comparison::Less => {
                    proof {
                        lemma_before_excludes_after(earlier[place as int], text@);
                    }
                    place += 1;
                },
                Comparison::Equal => {
                    proof {
                        order::lemma_lex_irreflexive(order::codes(text@));
                    }
                    place += 1;
                },
            }
        }
        let ghost characters = text@;
        proof {
            assert(before =~= rest@.push(text));
            assert(texts(before) =~= texts(rest@).push(characters));
            to_multiset_build(texts(rest@), characters);
            to_multiset_insert(earlier, place as int, characters);
        }
        result.insert(place, text);
        proof {
            let later = texts(result@);
            assert(later =~= earlier.insert(place as int, characters));
            assert(texts(rest@).to_multiset().add(later.to_multiset()) =~= texts(
                before,
            ).to_multiset().add(earlier.to_multiset()));
            assert forall|i: int, j: int| 0 <= i < j < later.len() implies !order::text_lt(
                #[trigger] later[j],
                #[trigger] later[i],
            ) by {
                let i0 = if i < place { i } else { i - 1 };
                let j0 = if j < place { j } else { j - 1 };
                if i == place {
                    lemma_before_excludes_after(characters, earlier[place as int]);
                    if j0 > place {
                        lemma_not_after(characters, earlier[place as int], earlier[j0]);
                    }
                } else if j != place {
                    assert(!order::text_lt(earlier[j0], earlier[i0]));
                }
            }
        }
    }
    proof {
        assert(texts(rest@) =~= Seq::<Seq<char>>::empty());
        to_multiset_len(texts(rest@));
        assert(texts(rest@).to_multiset().add(texts(result@).to_multiset()) =~= texts(
            result@,
        ).to_multiset());
    }
    result
}

/// Equal neighbours are a repetition.
proof fn lemma_neighbours(list: Seq<Seq<char>>, i: int)
    requires
        0 <= i,
        i + 1 < list.len(),
        list[i] == list[i + 1],
    ensures
        repeated(list, list[i]),
{
    let shorter = list.remove(i);
    to_multiset_remove(list, i);
    assert(shorter[i] == list[i]);
    assert(shorter.contains(list[i]));
    to_multiset_contains(shorter, list[i]);
    assert(list.contains(list[i]));
    to_multiset_contains(list, list[i]);
}

/// A text that is repeated stands at two places.
proof fn lemma_two_places(list: Seq<Seq<char>>, text: Seq<char>) -> (places: (int, int))
    requires
        repeated(list, text),
    ensures
        0 <= places.0 < places.1 < list.len(),
        list[places.0] == text,
        list[places.1] == text,
{
    to_multiset_contains(list, text);
    let i = choose|i: int| 0 <= i < list.len() && list[i] == text;
    to_multiset_remove(list, i);
    let shorter = list.remove(i);
    to_multiset_contains(shorter, text);
    let k = choose|k: int| 0 <= k < shorter.len() && shorter[k] == text;
    if k < i {
        (k, i)
    } else {
        (i, k + 1)
    }
}

/// The first repetition in an ordered list.
pub fn first_repetition(list: &Vec<String>) -> (found: Option<usize>)
    requires
        ascending(texts(list@)),
    ensures
        match found {
            Some(i) => i < list.len() && first_repeated(texts(list@), list[i as int]@),
            None => {
                &&& strictly_ascending(texts(list@))
                &&& forall|text: Seq<char>| !#[trigger] repeated(texts(list@), text)
            },
        },
{
    let ghost all = texts(list@);
    let mut i: usize = 1;
    while i < list.len()
        invariant
            1 <= i,
            all == texts(list@),
            ascending(all),
            forall|k: int| 0 <= k && k + 1 < i && k + 1 < all.len() ==> order::text_lt(
                #[trigger] all[k],
                all[k + 1],
            ),
        decreases list.len() - i,
    {
        assert(all[i - 1] == list[i - 1]@ && all[i as int] == list[i as int]@);
        match compared(list[i - 1].as_str(), list[i].as_str()) {
            Comparison::Equal => {
                proof {
                    lemma_neighbours(all, i - 1);
                    assert forall|other: Seq<char>| #[trigger] repeated(all, other) implies !order::text_lt(
                        other,
                        all[i - 1],
                    ) by {
                        let places = lemma_two_places(all, other);
                        if order::text_lt(other, all[i - 1]) {
                            lemma_before_excludes_after(other, all[i - 1]);
                            assert(places.1 < i - 1) by {
                                if places.1 > i - 1 {
                                    assert(!order::text_lt(all[places.1], all[i - 1]));
                                }
                            }
                            assert(order::text_lt(all[places.0], all[places.0 + 1]));
                            if places.0 + 1 < places.1 {
                                assert(!order::text_lt(all[places.1], all[places.0 + 1]));
                            }
                            lemma_before_excludes_after(all[places.0], all[places.0 + 1]);
                        }
                    }
                }
                return Some(i - 1);
            },
            Comparison::Greater => {
                assert(!order::text_lt(all[i as int], all[i - 1]));
            },
            Comparison::Less => {},
        }
        i += 1;
    }
    proof {
        assert forall|a: int, b: int| 0 <= a < b < all.len() implies order::text_lt(
            #[trigger] all[a],
            #[trigger] all[b],
        ) by {
            assert(order::text_lt(all[a], all[a + 1]));
            if a + 1 < b {
                assert(!order::text_lt(all[b], all[a + 1]));
                order::lemma_lex_trichotomy(order::codes(all[a + 1]), order::codes(all[b]));
                if order::text_lt(all[a + 1], all[b]) {
                    order::lemma_lex_transitive(
                        order::codes(all[a]),
                        order::codes(all[a + 1]),
                        order::codes(all[b]),
                    );
                }
            }
        }
        assert forall|text: Seq<char>| !#[trigger] repeated(all, text) by {
            if repeated(all, text) {
                let places = lemma_two_places(all, text);
                lemma_before_excludes_after(all[places.0], all[places.1]);
            }
        }
    }
    None
}

/// Whether an ordered list holds `text`.
pub fn holds(list: &Vec<String>, text: &str) -> (found: bool)
    requires
        strictly_ascending(texts(list@)),
    ensures
        found == texts(list@).contains(text@),
{
    let ghost all = texts(list@);
    let mut low: usize = 0;
    let mut high: usize = list.len();
    while low < high
        invariant
            all == texts(list@),
            strictly_ascending(all),
            low <= high <= list.len(),
            forall|k: int| 0 <= k < low ==> (#[trigger] all[k]) != text@,
            forall|k: int| high <= k < all.len() ==> (#[trigger] all[k]) != text@,
        decreases high - low,
    {
        let middle: usize = low + (high - low) / 2;
        assert(all[middle as int] == list[middle as int]@);
        match compared(list[middle].as_str(), text) {
            Comparison::Equal => {
                return true;
            },
            Comparison::Less => {
                assert forall|k: int| 0 <= k < middle + 1 implies (#[trigger] all[k]) != text@ by {
                    lemma_before_excludes_after(all[middle as int], text@);
                    if k < middle {
                        assert(order::text_lt(all[k], all[middle as int]));
                        if all[k] == text@ {
                            lemma_before_excludes_after(all[k], all[middle as int]);
                        }
                    }
                }
                low = middle + 1;
            },
            Comparison::Greater => {
                assert forall|k: int| middle <= k < all.len() implies (#[trigger] all[k]) != text@ by {
                    lemma_before_excludes_after(text@, all[middle as int]);
                    if middle < k {
                        assert(order::text_lt(all[middle as int], all[k]));
                        if all[k] == text@ {
                            lemma_before_excludes_after(all[middle as int], all[k]);
                        }
                    }
                }
                high = middle;
            },
        }
    }
    false
}

} // verus!
