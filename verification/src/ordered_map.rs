//! A map from numbers to small values, kept in the order of its keys.

use vstd::prelude::*;

verus! {

/// The map that lists its entries in `entries`.
pub open spec fn map_of<V>(entries: Seq<(u64, V)>) -> Map<u64, V>
    decreases entries.len(),
{
    if entries.len() == 0 {
        Map::empty()
    } else {
        map_of(entries.drop_last()).insert(entries.last().0, entries.last().1)
    }
}

pub open spec fn increasing<V>(entries: Seq<(u64, V)>) -> bool {
    forall|i: int, j: int| 0 <= i < j < entries.len() ==> (#[trigger] entries[i]).0 < (#[trigger] entries[j]).0
}

/// How many keys have `value`.
pub open spec fn count_of<V>(map: Map<u64, V>, value: V) -> nat {
    map.dom().filter(|key: u64| map[key] == value).len()
}

/// Counting the keys with a value is counting a set.
pub proof fn lemma_count_is_of_a_set<V>(map: Map<u64, V>, value: V, keys: Set<u64>)
    requires
        forall|key: u64| #[trigger]
            keys.contains(key) <==> map.dom().contains(key) && map[key] == value,
    ensures
        count_of(map, value) == keys.len(),
{
    assert(map.dom().filter(|key: u64| map[key] == value) =~= keys);
}

/// How many of the entries have `value`.
pub open spec fn count_in<V>(entries: Seq<(u64, V)>, value: V) -> nat
    decreases entries.len(),
{
    if entries.len() == 0 {
        0
    } else {
        count_in(entries.drop_last(), value) + (if entries.last().1 == value { 1nat } else { 0 })
    }
}

/// The listed entries are the entries of the map.
pub proof fn lemma_lookup<V>(entries: Seq<(u64, V)>)
    requires
        increasing(entries),
    ensures
        forall|i: int|
            0 <= i < entries.len() ==> map_of(entries).dom().contains((#[trigger] entries[i]).0)
                && map_of(entries)[entries[i].0] == entries[i].1,
        forall|key: u64|
            #[trigger] map_of(entries).dom().contains(key) ==> exists|i: int|
                0 <= i < entries.len() && (#[trigger] entries[i]).0 == key,
        map_of(entries).dom().finite(),
        map_of(entries).dom().len() == entries.len(),
    decreases entries.len(),
{
    if entries.len() > 0 {
        let rest = entries.drop_last();
        assert forall|i: int, j: int| 0 <= i < j < rest.len() implies (#[trigger] rest[i]).0 < (
        #[trigger] rest[j]).0 by {
            assert(rest[i] == entries[i] && rest[j] == entries[j]);
        }
        lemma_lookup(rest);
        let last = entries.len() - 1;
        assert(entries.last() == entries[last]);
        assert(!map_of(rest).dom().contains(entries.last().0)) by {
            if map_of(rest).dom().contains(entries.last().0) {
                let i = choose|i: int| 0 <= i < rest.len() && (#[trigger] rest[i]).0 == entries.last().0;
                assert(entries[i] == rest[i]);
                assert(entries[i].0 < entries[last].0);
            }
        }
        assert(map_of(entries).dom() =~= map_of(rest).dom().insert(entries.last().0));
        assert forall|i: int| 0 <= i < entries.len() implies map_of(entries).dom().contains(
            (#[trigger] entries[i]).0,
        ) && map_of(entries)[entries[i].0] == entries[i].1 by {
            if i < last {
                assert(rest[i] == entries[i]);
                assert(entries[i].0 < entries[last].0);
            }
        }
        assert forall|key: u64| #[trigger] map_of(entries).dom().contains(key) implies exists|i: int|
            0 <= i < entries.len() && (#[trigger] entries[i]).0 == key by {
            if key != entries.last().0 {
                let i = choose|i: int| 0 <= i < rest.len() && (#[trigger] rest[i]).0 == key;
                assert(entries[i] == rest[i]);
            } else {
                assert(entries[last].0 == key);
            }
        }
    } else {
        assert(map_of(entries).dom() =~= Set::<u64>::empty());
    }
}

/// Counting entries counts keys.
pub proof fn lemma_count<V>(entries: Seq<(u64, V)>, value: V)
    requires
        increasing(entries),
    ensures
        count_of(map_of(entries), value) == count_in(entries, value),
    decreases entries.len(),
{
    let map = map_of(entries);
    let chosen = map.dom().filter(|key: u64| map[key] == value);
    lemma_lookup(entries);
    if entries.len() == 0 {
        assert(chosen =~= Set::<u64>::empty());
    } else {
        let rest = entries.drop_last();
        assert forall|i: int, j: int| 0 <= i < j < rest.len() implies (#[trigger] rest[i]).0 < (
        #[trigger] rest[j]).0 by {
            assert(rest[i] == entries[i] && rest[j] == entries[j]);
        }
        lemma_count(rest, value);
        lemma_lookup(rest);
        let before = map_of(rest);
        let earlier = before.dom().filter(|key: u64| before[key] == value);
        let key = entries.last().0;
        assert(!before.dom().contains(key)) by {
            if before.dom().contains(key) {
                let i = choose|i: int| 0 <= i < rest.len() && (#[trigger] rest[i]).0 == key;
                assert(entries[i] == rest[i]);
                assert(entries.last() == entries[entries.len() - 1]);
                assert(entries[i].0 < entries[entries.len() - 1].0);
            }
        }
        assert(earlier.finite());
        if entries.last().1 == value {
            assert(chosen =~= earlier.insert(key));
        } else {
            assert(chosen =~= earlier);
        }
    }
}

/// A map with `u64` keys.
#[derive(Debug)]
pub struct OrderedMap<V> {
    entries: Vec<(u64, V)>,
}

enum Position {
    Found(usize),
    Missing(usize),
}

impl<V> View for OrderedMap<V> {
    type V = Map<u64, V>;

    closed spec fn view(&self) -> Map<u64, V> {
        map_of(self.entries@)
    }
}

impl<V: Copy> OrderedMap<V> {
    pub closed spec fn ordered(&self) -> bool {
        increasing(self.entries@)
    }

    /// The entries in the order of keys.
    pub closed spec fn listed(&self) -> Seq<(u64, V)> {
        self.entries@
    }

    /// The listed entries, in increasing order, make up the map.
    pub proof fn lemma_listed(&self)
        requires
            self.ordered(),
        ensures
            increasing(self.listed()),
            self@ == map_of(self.listed()),
            self.listed().len() == self@.dom().len(),
    {
        lemma_lookup(self.entries@);
    }

    pub fn new() -> (map: Self)
        ensures
            map.ordered(),
            map@ == Map::<u64, V>::empty(),
    {
        let map = OrderedMap { entries: Vec::new() };
        assert(map_of(map.entries@) =~= Map::empty());
        map
    }

    fn search(&self, key: u64) -> (position: Position)
        requires
            self.ordered(),
        ensures
            match position {
                Position::Found(i) => i < self.entries.len() && self.entries[i as int].0 == key,
                Position::Missing(i) => {
                    &&& i <= self.entries.len()
                    &&& forall|k: int| 0 <= k < i ==> (#[trigger] self.entries[k]).0 < key
                    &&& forall|k: int| i <= k < self.entries.len() ==> key < (#[trigger] self.entries[k]).0
                },
            },
    {
        let mut low: usize = 0;
        let mut high: usize = self.entries.len();
        while low < high
            invariant
                self.ordered(),
                low <= high <= self.entries.len(),
                forall|k: int| 0 <= k < low ==> (#[trigger] self.entries[k]).0 < key,
                forall|k: int| high <= k < self.entries.len() ==> key < (#[trigger] self.entries[k]).0,
            decreases high - low,
        {
            let middle: usize = low + (high - low) / 2;
            let found: u64 = self.entries[middle].0;
            if found == key {
                return Position::Found(middle);
            }
            if found < key {
                assert forall|k: int| 0 <= k < middle + 1 implies (#[trigger] self.entries[k]).0 < key by {
                    if k < middle {
                        assert(self.entries[k].0 < self.entries[middle as int].0);
                    }
                }
                low = middle + 1;
            } else {
                assert forall|k: int| middle <= k < self.entries.len() implies key < (
                #[trigger] self.entries[k]).0 by {
                    if middle < k {
                        assert(self.entries[middle as int].0 < self.entries[k].0);
                    }
                }
                high = middle;
            }
        }
        Position::Missing(low)
    }

    /// The value of `key`.
    pub fn get(&self, key: u64) -> (value: Option<V>)
        requires
            self.ordered(),
        ensures
            match value {
                Some(value) => self@.dom().contains(key) && self@[key] == value,
                None => !self@.dom().contains(key),
            },
    {
        proof {
            lemma_lookup(self.entries@);
        }
        match self.search(key) {
            Position::Found(i) => Some(self.entries[i].1),
            Position::Missing(_) => None,
        }
    }

    /// Sets the value of `key` and returns its value before.
    #[verifier::rlimit(40)]
    #[verifier::spinoff_prover]
    pub fn insert(&mut self, key: u64, value: V) -> (before: Option<V>)
        requires
            old(self).ordered(),
        ensures
            final(self).ordered(),
            final(self)@ == old(self)@.insert(key, value),
            match before {
                Some(before) => old(self)@.dom().contains(key) && old(self)@[key] == before,
                None => !old(self)@.dom().contains(key),
            },
    {
        let ghost earlier = self.entries@;
        proof {
            lemma_lookup(earlier);
        }
        match self.search(key) {
            Position::Found(i) => {
                let before = self.entries[i].1;
                self.entries[i] = (key, value);
                proof {
                    let later = self.entries@;
                    assert(later == earlier.update(i as int, (key, value)));
                    assert forall|a: int, b: int| 0 <= a < b < later.len() implies (#[trigger] later[a]).0
                        < (#[trigger] later[b]).0 by {
                        assert(earlier[a].0 < earlier[b].0);
                    }
                    lemma_lookup(later);
                    assert(later[i as int].0 == key);
                    assert forall|k: u64| #[trigger] map_of(later).dom().contains(k) == map_of(
                        earlier,
                    ).insert(key, value).dom().contains(k) by {
                        if map_of(later).dom().contains(k) {
                            let a = choose|a: int| 0 <= a < later.len() && (#[trigger] later[a]).0 == k;
                            assert(earlier[a].0 == k);
                        }
                        if map_of(earlier).dom().contains(k) {
                            let a = choose|a: int| 0 <= a < earlier.len() && (#[trigger] earlier[a]).0 == k;
                            assert(later[a].0 == k);
                        }
                    }
                    assert forall|k: u64| #[trigger] map_of(later).dom().contains(k) implies map_of(later)[k]
                        == map_of(earlier).insert(key, value)[k] by {
                        let a = choose|a: int| 0 <= a < later.len() && (#[trigger] later[a]).0 == k;
                        assert(earlier[a].0 == k);
                        if a != i as int {
                            if a < i as int {
                                assert(earlier[a].0 < earlier[i as int].0);
                            } else {
                                assert(earlier[i as int].0 < earlier[a].0);
                            }
                        }
                    }
                    assert(map_of(later) =~= map_of(earlier).insert(key, value));
                }
                Some(before)
            },
            Position::Missing(i) => {
                self.entries.insert(i, (key, value));
                proof {
                    let later = self.entries@;
                    assert(later == earlier.insert(i as int, (key, value)));
                    assert forall|a: int, b: int| 0 <= a < b < later.len() implies (#[trigger] later[a]).0
                        < (#[trigger] later[b]).0 by {
                        let a0 = if a < i { a } else { a - 1 };
                        let b0 = if b < i { b } else { b - 1 };
                        if a == i as int {
                            assert(later[b] == earlier[b0]);
                        } else if b == i as int {
                            assert(later[a] == earlier[a0]);
                        } else {
                            assert(later[a] == earlier[a0]);
                            assert(later[b] == earlier[b0]);
                        }
                    }
                    lemma_lookup(later);
                    assert(later[i as int].0 == key);
                    assert(!map_of(earlier).dom().contains(key));
                    assert forall|k: u64| #[trigger] map_of(later).dom().contains(k) == map_of(
                        earlier,
                    ).insert(key, value).dom().contains(k) by {
                        if map_of(later).dom().contains(k) && k != key {
                            let a = choose|a: int| 0 <= a < later.len() && (#[trigger] later[a]).0 == k;
                            let a0 = if a < i { a } else { a - 1 };
                            assert(earlier[a0].0 == k);
                        }
                        if map_of(earlier).dom().contains(k) {
                            let a = choose|a: int| 0 <= a < earlier.len() && (#[trigger] earlier[a]).0 == k;
                            let a1 = if a < i { a } else { a + 1 };
                            assert(later[a1].0 == k);
                        }
                    }
                    assert forall|k: u64| #[trigger] map_of(later).dom().contains(k) implies map_of(later)[k]
                        == map_of(earlier).insert(key, value)[k] by {
                        let a = choose|a: int| 0 <= a < later.len() && (#[trigger] later[a]).0 == k;
                        if a != i as int {
                            let a0 = if a < i { a } else { a - 1 };
                            assert(earlier[a0] == later[a]);
                        }
                    }
                    assert(map_of(later) =~= map_of(earlier).insert(key, value));
                }
                None
            },
        }
    }

    /// Removes `key`.
    pub fn remove(&mut self, key: u64)
        requires
            old(self).ordered(),
        ensures
            final(self).ordered(),
            final(self)@ == old(self)@.remove(key),
    {
        let ghost earlier = self.entries@;
        proof {
            lemma_lookup(earlier);
        }
        match self.search(key) {
            Position::Found(i) => {
                self.entries.remove(i);
                proof {
                    let later = self.entries@;
                    assert(later == earlier.remove(i as int));
                    assert forall|a: int, b: int| 0 <= a < b < later.len() implies (#[trigger] later[a]).0
                        < (#[trigger] later[b]).0 by {
                        let a0 = if a < i { a } else { a + 1 };
                        let b0 = if b < i { b } else { b + 1 };
                        assert(later[a] == earlier[a0]);
                        assert(later[b] == earlier[b0]);
                    }
                    lemma_lookup(later);
                    assert forall|k: u64| #[trigger] map_of(later).dom().contains(k) == map_of(
                        earlier,
                    ).remove(key).dom().contains(k) by {
                        if map_of(later).dom().contains(k) {
                            let a = choose|a: int| 0 <= a < later.len() && (#[trigger] later[a]).0 == k;
                            let a0 = if a < i { a } else { a + 1 };
                            assert(earlier[a0] == later[a]);
                            if a0 < i {
                                assert(earlier[a0].0 < earlier[i as int].0);
                            } else {
                                assert(earlier[i as int].0 < earlier[a0].0);
                            }
                        }
                        if map_of(earlier).dom().contains(k) && k != key {
                            let a = choose|a: int| 0 <= a < earlier.len() && (#[trigger] earlier[a]).0 == k;
                            let a1 = if a < i { a } else { a - 1 };
                            assert(later[a1] == earlier[a]);
                        }
                    }
                    assert forall|k: u64| #[trigger] map_of(later).dom().contains(k) implies map_of(later)[k]
                        == map_of(earlier).remove(key)[k] by {
                        let a = choose|a: int| 0 <= a < later.len() && (#[trigger] later[a]).0 == k;
                        let a0 = if a < i { a } else { a + 1 };
                        assert(earlier[a0] == later[a]);
                    }
                    assert(map_of(later) =~= map_of(earlier).remove(key));
                }
            },
            Position::Missing(_) => {
                assert(map_of(earlier) =~= map_of(earlier).remove(key));
            },
        }
    }

    /// The number of keys.
    pub fn len(&self) -> (len: usize)
        requires
            self.ordered(),
        ensures
            len == self@.dom().len(),
            self@.dom().finite(),
    {
        proof {
            lemma_lookup(self.entries@);
        }
        self.entries.len()
    }

    /// The entry at `index` in the order of keys.
    pub fn entry(&self, index: usize) -> (entry: (u64, V))
        requires
            self.ordered(),
            index < self@.dom().len(),
        ensures
            index < self.listed().len(),
            entry == self.listed()[index as int],
    {
        proof {
            lemma_lookup(self.entries@);
        }
        self.entries[index]
    }
}

} // verus!
