//! Overlap index over relative paths.
//!
//! Paths are declared with an ordinal. The index answers, for a path, the smallest
//! ordinal among the declared paths that stand in a given relation to it. Nodes live
//! in one table and refer to each other by position, so dropping a deep index needs
//! no recursion.

use vstd::prelude::*;
use crate::order;
use crate::order::{order_of, Comparison};
use crate::windows_path;
use crate::windows_path::path_components;

verus! {

/// Whether the components `above` start the components `below`.
pub open spec fn is_prefix(above: Seq<Seq<char>>, below: Seq<Seq<char>>) -> bool {
    above.len() <= below.len() && below.take(above.len() as int) == above
}

/// Equal, or one is an ancestor of the other.
pub open spec fn overlaps(left: Seq<Seq<char>>, right: Seq<Seq<char>>) -> bool {
    is_prefix(left, right) || is_prefix(right, left)
}

pub open spec fn is_strict_ancestor(above: Seq<Seq<char>>, below: Seq<Seq<char>>) -> bool {
    is_prefix(above, below) && above.len() < below.len()
}

/// The smaller of two optional ordinals; an absent one does not count.
pub open spec fn smaller(first: Option<usize>, second: Option<usize>) -> Option<usize> {
    match (first, second) {
        (Some(a), Some(b)) => Some(if a <= b { a } else { b }),
        (Some(a), None) => Some(a),
        (None, b) => b,
    }
}

/// The smallest ordinal among the declarations whose path satisfies `holds`.
pub open spec fn least(
    declared: Seq<(Seq<Seq<char>>, usize)>,
    holds: spec_fn(Seq<Seq<char>>) -> bool,
) -> Option<usize>
    decreases declared.len(),
{
    if declared.len() == 0 {
        None
    } else {
        let rest = least(declared.drop_last(), holds);
        if holds(declared.last().0) {
            smaller(rest, Some(declared.last().1))
        } else {
            rest
        }
    }
}

pub proof fn lemma_least_congruent(
    declared: Seq<(Seq<Seq<char>>, usize)>,
    first: spec_fn(Seq<Seq<char>>) -> bool,
    second: spec_fn(Seq<Seq<char>>) -> bool,
)
    requires
        forall|i: int| 0 <= i < declared.len() ==> first(#[trigger] declared[i].0) == second(declared[i].0),
    ensures
        least(declared, first) == least(declared, second),
    decreases declared.len(),
{
    if declared.len() > 0 {
        assert(forall|i: int| 0 <= i < declared.drop_last().len() ==> declared.drop_last()[i] == declared[i]);
        lemma_least_congruent(declared.drop_last(), first, second);
        assert(declared.last() == declared[declared.len() - 1]);
    }
}

pub proof fn lemma_least_union(
    declared: Seq<(Seq<Seq<char>>, usize)>,
    first: spec_fn(Seq<Seq<char>>) -> bool,
    second: spec_fn(Seq<Seq<char>>) -> bool,
)
    ensures
        least(declared, either(first, second)) == smaller(
            least(declared, first),
            least(declared, second),
        ),
    decreases declared.len(),
{
    if declared.len() > 0 {
        lemma_least_union(declared.drop_last(), first, second);
    }
}

/// `least` is attained by a matching declaration and bounds all of them from below;
/// it is absent exactly when nothing matches.
pub proof fn lemma_least_meaning(
    declared: Seq<(Seq<Seq<char>>, usize)>,
    holds: spec_fn(Seq<Seq<char>>) -> bool,
)
    ensures
        match least(declared, holds) {
            Some(ordinal) => {
                &&& exists|i: int|
                    0 <= i < declared.len() && holds((#[trigger] declared[i]).0) && declared[i].1 == ordinal
                &&& forall|i: int|
                    0 <= i < declared.len() && holds((#[trigger] declared[i]).0) ==> ordinal <= declared[i].1
            },
            None => forall|i: int| 0 <= i < declared.len() ==> !holds((#[trigger] declared[i]).0),
        },
    decreases declared.len(),
{
    if declared.len() > 0 {
        let rest = declared.drop_last();
        lemma_least_meaning(rest, holds);
        assert(forall|i: int| 0 <= i < rest.len() ==> rest[i] == declared[i]);
        assert(declared.last() == declared[declared.len() - 1]);
        match least(rest, holds) {
            Some(ordinal) => {
                let i = choose|i: int|
                    0 <= i < rest.len() && holds((#[trigger] rest[i]).0) && rest[i].1 == ordinal;
                assert(declared[i] == rest[i]);
            },
            None => {},
        }
    }
}

pub open spec fn overlapping_with(path: Seq<Seq<char>>) -> spec_fn(Seq<Seq<char>>) -> bool {
    |p: Seq<Seq<char>>| overlaps(p, path)
}

pub open spec fn strictly_above(path: Seq<Seq<char>>) -> spec_fn(Seq<Seq<char>>) -> bool {
    |p: Seq<Seq<char>>| is_strict_ancestor(p, path)
}

spec fn beginnings(path: Seq<Seq<char>>, limit: int) -> spec_fn(Seq<Seq<char>>) -> bool {
    |p: Seq<Seq<char>>| is_prefix(p, path) && p.len() < limit
}

spec fn exactly(place: Seq<Seq<char>>) -> spec_fn(Seq<Seq<char>>) -> bool {
    |p: Seq<Seq<char>>| p == place
}

spec fn at_or_below(place: Seq<Seq<char>>) -> spec_fn(Seq<Seq<char>>) -> bool {
    |p: Seq<Seq<char>>| is_prefix(place, p)
}

spec fn nowhere() -> spec_fn(Seq<Seq<char>>) -> bool {
    |p: Seq<Seq<char>>| false
}

pub open spec fn either(
    first: spec_fn(Seq<Seq<char>>) -> bool,
    second: spec_fn(Seq<Seq<char>>) -> bool,
) -> spec_fn(Seq<Seq<char>>) -> bool {
    |p: Seq<Seq<char>>| first(p) || second(p)
}

/// The smallest ordinal declared for a path that overlaps `path`.
pub open spec fn least_overlapping(
    declared: Seq<(Seq<Seq<char>>, usize)>,
    path: Seq<Seq<char>>,
) -> Option<usize> {
    least(declared, overlapping_with(path))
}

/// The smallest ordinal declared for a strict ancestor of `path`.
pub open spec fn least_strict_ancestor(
    declared: Seq<(Seq<Seq<char>>, usize)>,
    path: Seq<Seq<char>>,
) -> Option<usize> {
    least(declared, strictly_above(path))
}

/// The smallest ordinal declared for one of the first `limit` beginnings of `path`.
spec fn least_above(
    declared: Seq<(Seq<Seq<char>>, usize)>,
    path: Seq<Seq<char>>,
    limit: int,
) -> Option<usize> {
    least(declared, beginnings(path, limit))
}

struct Edge {
    name: Vec<char>,
    target: usize,
}

struct Node {
    children: Vec<Edge>,
    terminal_min_ordinal: Option<usize>,
    subtree_min_ordinal: Option<usize>,
}

/// Declared relative paths with their ordinals.
pub struct RelativePathIndex {
    nodes: Vec<Node>,
    places: Ghost<Seq<Seq<Seq<char>>>>,
    parents: Ghost<Seq<int>>,
    declared: Ghost<Seq<(Seq<Seq<char>>, usize)>>,
}

enum ChildSearch {
    Found(usize),
    Missing(usize),
}

spec fn has_edge(nodes: Seq<Node>, parent: int, child: int) -> bool {
    exists|k: int|
        0 <= k < nodes[parent].children.len() && (#[trigger] nodes[parent].children[k]).target == child
}

spec fn sorted_children(children: Seq<Edge>) -> bool {
    forall|a: int, b: int|
        0 <= a < b < children.len() ==> order::text_lt(
            (#[trigger] children[a]).name@,
            (#[trigger] children[b]).name@,
        )
}

/// The node table is the prefix tree of `places`.
spec fn shape(nodes: Seq<Node>, places: Seq<Seq<Seq<char>>>, parents: Seq<int>) -> bool {
    &&& nodes.len() == places.len()
    &&& parents.len() == nodes.len()
    &&& nodes.len() > 0
    &&& places[0].len() == 0
    &&& forall|i: int, j: int| 0 <= i < j < places.len() ==> #[trigger] places[i] != #[trigger] places[j]
    &&& forall|i: int| 0 <= i < nodes.len() ==> sorted_children((#[trigger] nodes[i]).children@)
    &&& forall|i: int, k: int|
        0 <= i < nodes.len() && 0 <= k < nodes[i].children.len() ==> {
            let edge = #[trigger] nodes[i].children[k];
            i < edge.target < nodes.len() && places[edge.target as int] == places[i].push(edge.name@)
        }
    &&& forall|j: int|
        0 < j < nodes.len() ==> 0 <= #[trigger] parents[j] < j && has_edge(nodes, parents[j], j)
}

spec fn terminal_sums(
    nodes: Seq<Node>,
    places: Seq<Seq<Seq<char>>>,
    declared: Seq<(Seq<Seq<char>>, usize)>,
) -> bool {
    forall|i: int|
        0 <= i < nodes.len() ==> (#[trigger] nodes[i]).terminal_min_ordinal == terminal_sum(
            places[i],
            declared,
        )
}

spec fn terminal_sum(place: Seq<Seq<char>>, declared: Seq<(Seq<Seq<char>>, usize)>) -> Option<usize> {
    least(declared, exactly(place))
}

spec fn subtree_sum(place: Seq<Seq<char>>, declared: Seq<(Seq<Seq<char>>, usize)>) -> Option<usize> {
    least(declared, at_or_below(place))
}

spec fn declared_places(
    places: Seq<Seq<Seq<char>>>,
    declared: Seq<(Seq<Seq<char>>, usize)>,
) -> bool {
    forall|e: int| 0 <= e < declared.len() ==> places.contains((#[trigger] declared[e]).0)
}

/// Every beginning of a place in the tree is a place in the tree.
proof fn lemma_prefix_has_place(
    nodes: Seq<Node>,
    places: Seq<Seq<Seq<char>>>,
    parents: Seq<int>,
    j: int,
    k: int,
)
    requires
        shape(nodes, places, parents),
        0 <= j < places.len(),
        0 <= k <= places[j].len(),
    ensures
        places.contains(places[j].take(k)),
    decreases j,
{
    if k == places[j].len() {
        assert(places[j].take(k) =~= places[j]);
    } else {
        assert(j > 0);
        let i = parents[j];
        assert(has_edge(nodes, i, j));
        let e = choose|e: int|
            0 <= e < nodes[i].children.len() && (#[trigger] nodes[i].children[e]).target == j;
        assert(places[j] == places[i].push(nodes[i].children[e].name@));
        lemma_prefix_has_place(nodes, places, parents, i, k);
        assert(places[j].take(k) =~= places[i].take(k));
    }
}

/// A name that no edge of a node carries starts no place below that node.
proof fn lemma_missing_child(
    nodes: Seq<Node>,
    places: Seq<Seq<Seq<char>>>,
    parents: Seq<int>,
    node: int,
    name: Seq<char>,
)
    requires
        shape(nodes, places, parents),
        0 <= node < nodes.len(),
        forall|k: int| 0 <= k < nodes[node].children.len() ==> (#[trigger] nodes[node].children[k]).name@ != name,
    ensures
        !places.contains(places[node].push(name)),
{
    let wanted = places[node].push(name);
    if places.contains(wanted) {
        let j = choose|j: int| 0 <= j < places.len() && places[j] == wanted;
        assert(j > 0);
        let i = parents[j];
        assert(has_edge(nodes, i, j));
        let e = choose|e: int|
            0 <= e < nodes[i].children.len() && (#[trigger] nodes[i].children[e]).target == j;
        assert(places[j] == places[i].push(nodes[i].children[e].name@));
        assert(places[i] =~= wanted.drop_last());
        assert(places[node] =~= wanted.drop_last());
        assert(i == node);
        assert(nodes[i].children[e].name@ == wanted.last());
    }
}

/// No declaration lies at or below a path that is not a place.
proof fn lemma_nothing_below(
    nodes: Seq<Node>,
    places: Seq<Seq<Seq<char>>>,
    parents: Seq<int>,
    declared: Seq<(Seq<Seq<char>>, usize)>,
    absent: Seq<Seq<char>>,
)
    requires
        shape(nodes, places, parents),
        declared_places(places, declared),
        !places.contains(absent),
    ensures
        forall|e: int| 0 <= e < declared.len() ==> !is_prefix(absent, (#[trigger] declared[e]).0),
{
    assert forall|e: int| 0 <= e < declared.len() implies !is_prefix(absent, (#[trigger] declared[e]).0) by {
        if is_prefix(absent, declared[e].0) {
            let j = choose|j: int| 0 <= j < places.len() && places[j] == declared[e].0;
            lemma_prefix_has_place(nodes, places, parents, j, absent.len() as int);
        }
    }
}

fn find_child(children: &Vec<Edge>, name: &Vec<char>) -> (result: ChildSearch)
    requires
        sorted_children(children@),
    ensures
        match result {
            ChildSearch::Found(k) => k < children.len() && children[k as int].name@ == name@,
            ChildSearch::Missing(k) => {
                &&& k <= children.len()
                &&& forall|a: int| 0 <= a < k ==> order::text_lt((#[trigger] children[a]).name@, name@)
                &&& forall|a: int| k <= a < children.len() ==> order::text_lt(name@, (#[trigger] children[a]).name@)
            },
        },
{
    let mut low: usize = 0;
    let mut high: usize = children.len();
    while low < high
        invariant
            low <= high <= children.len(),
            sorted_children(children@),
            forall|a: int| 0 <= a < low ==> order::text_lt((#[trigger] children[a]).name@, name@),
            forall|a: int| high <= a < children.len() ==> order::text_lt(name@, (#[trigger] children[a]).name@),
        decreases high - low,
    {
        let middle: usize = low + (high - low) / 2;
        match order_of(&children[middle].name, name) {
            Comparison::Equal => {
                return ChildSearch::Found(middle);
            },
            Comparison::Less => {
                proof {
                    assert forall|a: int| 0 <= a < middle + 1 implies order::text_lt(
                        (#[trigger] children[a]).name@,
                        name@,
                    ) by {
                        if a < middle {
                            order::lemma_lex_transitive(
                                order::codes(children[a].name@),
                                order::codes(children[middle as int].name@),
                                order::codes(name@),
                            );
                        }
                    }
                }
                low = middle + 1;
            },
            Comparison::Greater => {
                proof {
                    assert forall|a: int| middle <= a < children.len() implies order::text_lt(
                        name@,
                        (#[trigger] children[a]).name@,
                    ) by {
                        if middle < a {
                            order::lemma_lex_transitive(
                                order::codes(name@),
                                order::codes(children[middle as int].name@),
                                order::codes(children[a].name@),
                            );
                        }
                    }
                }
                high = middle;
            },
        }
    }
    ChildSearch::Missing(low)
}

/// The smaller of an optional ordinal and `ordinal`.
pub fn min_ordinal(current: Option<usize>, ordinal: usize) -> (result: Option<usize>)
    ensures
        result == smaller(current, Some(ordinal)),
{
    match current {
        Some(present) => {
            if present <= ordinal {
                Some(present)
            } else {
                Some(ordinal)
            }
        },
        None => Some(ordinal),
    }
}

/// The smaller of two optional ordinals.
pub fn min_optional_ordinal(first: Option<usize>, second: Option<usize>) -> (result: Option<usize>)
    ensures
        result == smaller(first, second),
{
    match second {
        Some(ordinal) => min_ordinal(first, ordinal),
        None => first,
    }
}

impl View for RelativePathIndex {
    type V = Seq<(Seq<Seq<char>>, usize)>;

    /// The declarations, in the order in which they were made.
    closed spec fn view(&self) -> Seq<(Seq<Seq<char>>, usize)> {
        self.declared@
    }
}

impl RelativePathIndex {
    pub closed spec fn well_formed(&self) -> bool {
        &&& shape(self.nodes@, self.places@, self.parents@)
        &&& terminal_sums(self.nodes@, self.places@, self.declared@)
        &&& forall|i: int|
            0 <= i < self.nodes.len() ==> (#[trigger] self.nodes[i]).subtree_min_ordinal == subtree_sum(
                self.places@[i],
                self.declared@,
            )
        &&& declared_places(self.places@, self.declared@)
    }

    /// An index without declarations.
    pub fn new() -> (index: Self)
        ensures
            index.well_formed(),
            index@ == Seq::<(Seq<Seq<char>>, usize)>::empty(),
    {
        let mut nodes: Vec<Node> = Vec::new();
        nodes.push(
            Node { children: Vec::new(), terminal_min_ordinal: None, subtree_min_ordinal: None },
        );
        let ghost places: Seq<Seq<Seq<char>>> = seq![Seq::empty()];
        let ghost parents: Seq<int> = seq![0int];
        let index = RelativePathIndex {
            nodes,
            places: Ghost(places),
            parents: Ghost(parents),
            declared: Ghost(Seq::empty()),
        };
        assert(index.nodes[0].children@.len() == 0);
        index
    }

    /// Adds the node `place(node).push(name)` below `node`, whose edges do not carry `name`.
    fn add_child(&mut self, node: usize, at: usize, name: &Vec<char>) -> (child: usize)
        requires
            shape(old(self).nodes@, old(self).places@, old(self).parents@),
            terminal_sums(old(self).nodes@, old(self).places@, old(self).declared@),
            declared_places(old(self).places@, old(self).declared@),
            node < old(self).nodes.len(),
            at <= old(self).nodes[node as int].children.len(),
            forall|a: int|
                0 <= a < at ==> order::text_lt(
                    (#[trigger] old(self).nodes[node as int].children[a]).name@,
                    name@,
                ),
            forall|a: int|
                at <= a < old(self).nodes[node as int].children.len() ==> order::text_lt(
                    name@,
                    (#[trigger] old(self).nodes[node as int].children[a]).name@,
                ),
        ensures
            child == old(self).nodes.len(),
            final(self).nodes.len() == old(self).nodes.len() + 1,
            final(self).places@ == old(self).places@.push(old(self).places@[node as int].push(name@)),
            final(self).declared@ == old(self).declared@,
            shape(final(self).nodes@, final(self).places@, final(self).parents@),
            terminal_sums(final(self).nodes@, final(self).places@, final(self).declared@),
            declared_places(final(self).places@, final(self).declared@),
            forall|i: int|
                0 <= i < old(self).nodes.len() ==> (#[trigger] final(self).nodes[i]).subtree_min_ordinal
                    == old(self).nodes[i].subtree_min_ordinal,
            final(self).nodes[child as int].subtree_min_ordinal is None,
            subtree_sum(final(self).places@[child as int], old(self).declared@) is None,
    {
        let child = self.nodes.len();
        let ghost nodes = self.nodes@;
        let ghost places = self.places@;
        let ghost parents = self.parents@;
        let ghost declared = self.declared@;
        let ghost place = places[node as int].push(name@);
        proof {
            assert forall|k: int| 0 <= k < nodes[node as int].children.len() implies (
            #[trigger] nodes[node as int].children[k]).name@ != name@ by {
                order::lemma_lex_irreflexive(order::codes(name@));
            }
            lemma_missing_child(nodes, places, parents, node as int, name@);
            lemma_nothing_below(nodes, places, parents, declared, place);
            lemma_least_congruent(declared, at_or_below(place), nowhere());
            assert forall|e: int| 0 <= e < declared.len() implies (#[trigger] declared[e]).0 != place by {
                assert(!is_prefix(place, declared[e].0));
                assert(place.take(place.len() as int) =~= place);
            }
            lemma_least_congruent(declared, exactly(place), nowhere());
            lemma_least_nothing(declared);
        }
        let edge = Edge { name: crate::windows_path::copied(name), target: child };
        self.nodes[node].children.insert(at, edge);
        self.nodes.push(
            Node { children: Vec::new(), terminal_min_ordinal: None, subtree_min_ordinal: None },
        );
        self.places = Ghost(self.places@.push(place));
        self.parents = Ghost(self.parents@.push(node as int));
        proof {
            let after = self.nodes@;
            assert(after[node as int].children@ == nodes[node as int].children@.insert(at as int, edge));
            assert forall|i: int| 0 <= i < nodes.len() && i != node implies after[i] == nodes[i] by {}
            assert(after[child as int].children@.len() == 0);
            assert forall|i: int| 0 <= i < after.len() implies (
            #[trigger] after[i]).terminal_min_ordinal == terminal_sum(self.places@[i], declared) by {
                if i < nodes.len() {
                    assert(after[i].terminal_min_ordinal == nodes[i].terminal_min_ordinal);
                }
            }
            assert forall|i: int, k: int|
                0 <= i < after.len() && 0 <= k < after[i].children.len() implies {
                let edge = #[trigger] after[i].children[k];
                i < edge.target < after.len() && self.places@[edge.target as int]
                    == self.places@[i].push(edge.name@)
            } by {
                if i == node as int {
                    if k < at {
                        assert(after[i].children[k] == nodes[i].children[k]);
                    } else if k > at {
                        assert(after[i].children[k] == nodes[i].children[k - 1]);
                    }
                } else if i < nodes.len() {
                    assert(after[i].children[k] == nodes[i].children[k]);
                }
            }
            assert forall|i: int| 0 <= i < after.len() implies sorted_children(
                (#[trigger] after[i]).children@,
            ) by {
                if i == node as int {
                    let children = after[i].children@;
                    assert forall|a: int, b: int| 0 <= a < b < children.len() implies order::text_lt(
                        (#[trigger] children[a]).name@,
                        (#[trigger] children[b]).name@,
                    ) by {
                        let before = nodes[i].children@;
                        let a0 = if a < at { a } else { a - 1 };
                        let b0 = if b < at { b } else { b - 1 };
                        if a == at {
                            assert(children[b] == before[b0]);
                        } else if b == at {
                            assert(children[a] == before[a0]);
                        } else {
                            assert(children[a] == before[a0]);
                            assert(children[b] == before[b0]);
                        }
                    }
                } else if i < nodes.len() {
                    assert(after[i] == nodes[i]);
                }
            }
            assert forall|j: int| 0 < j < after.len() implies 0 <= #[trigger] self.parents@[j] < j
                && has_edge(after, self.parents@[j], j) by {
                if j < nodes.len() {
                    let i = parents[j];
                    assert(has_edge(nodes, i, j));
                    let k = choose|k: int|
                        0 <= k < nodes[i].children.len() && (#[trigger] nodes[i].children[k]).target == j;
                    if i == node as int && k >= at {
                        assert(after[i].children[k + 1] == nodes[i].children[k]);
                    } else {
                        assert(after[i].children[k] == nodes[i].children[k]);
                    }
                } else {
                    assert(after[node as int].children[at as int].target == child);
                }
            }
            assert forall|e: int| 0 <= e < declared.len() implies self.places@.contains(
                (#[trigger] declared[e]).0,
            ) by {
                let j = choose|j: int| 0 <= j < places.len() && places[j] == declared[e].0;
                assert(self.places@[j] == declared[e].0);
            }
            assert forall|i: int, j: int| 0 <= i < j < self.places@.len() implies
                #[trigger] self.places@[i] != #[trigger] self.places@[j] by {
                if j == places.len() {
                    assert(places.contains(places[i]));
                }
            }
        }
        child
    }
}

/// A condition that nothing meets selects no ordinal.
proof fn lemma_least_nothing(declared: Seq<(Seq<Seq<char>>, usize)>)
    ensures
        least(declared, nowhere()) is None,
    decreases declared.len(),
{
    if declared.len() > 0 {
        lemma_least_nothing(declared.drop_last());
    }
}

impl RelativePathIndex {
    /// Declares `path` with `ordinal`.
    pub fn insert(&mut self, path: &str, ordinal: usize)
        requires
            old(self).well_formed(),
            windows_path::has_only_names(path@),
        ensures
            final(self).well_formed(),
            final(self)@ == old(self)@.push((windows_path::components(path@), ordinal)),
    {
        let parts = path_components(path);
        let ghost target = windows_path::components(path@);
        let ghost declared = self.declared@;
        let ghost all = declared.push((target, ordinal));
        let mut node: usize = 0;
        let mut depth: usize = 0;
        proof {
            assert(all.drop_last() == declared);
            assert(self.places@[0] =~= target.take(0));
        }
        let ghost initial = self.nodes@;
        let root = min_ordinal(self.nodes[0].subtree_min_ordinal, ordinal);
        self.nodes[0].subtree_min_ordinal = root;
        proof {
            assert forall|i: int| 0 <= i < initial.len() implies (
            #[trigger] self.nodes[i]).children == initial[i].children
                && self.nodes[i].terminal_min_ordinal == initial[i].terminal_min_ordinal by {}
            lemma_same_edges(initial, self.nodes@, self.places@, self.parents@);
            assert(is_prefix(self.places@[0], target));
            assert forall|i: int| 0 <= i < self.nodes.len() implies (
            #[trigger] self.nodes[i]).subtree_min_ordinal == (if is_prefix(self.places@[i], target)
                && self.places@[i].len() <= 0 {
                subtree_sum(self.places@[i], all)
            } else {
                subtree_sum(self.places@[i], declared)
            }) by {
                if i > 0 && self.places@[i].len() == 0 {
                    assert(self.places@[i] =~= self.places@[0]);
                }
            }
        }
        while depth < parts.len()
            invariant
                shape(self.nodes@, self.places@, self.parents@),
                terminal_sums(self.nodes@, self.places@, declared),
                declared_places(self.places@, declared),
                self.declared@ == declared,
                all == declared.push((target, ordinal)),
                windows_path::names(parts@) == target,
                depth <= parts.len(),
                node < self.nodes.len(),
                self.places@[node as int] == target.take(depth as int),
                forall|i: int|
                    0 <= i < self.nodes.len() ==> (#[trigger] self.nodes[i]).subtree_min_ordinal == (
                    if is_prefix(self.places@[i], target) && self.places@[i].len() <= depth {
                        subtree_sum(self.places@[i], all)
                    } else {
                        subtree_sum(self.places@[i], declared)
                    }),
            decreases parts.len() - depth,
        {
            proof {
                assert(windows_path::names(parts@).len() == parts.len());
                assert(target[depth as int] == parts[depth as int]@);
                assert(target.take(depth + 1) =~= target.take(depth as int).push(target[depth as int]));
                assert(all.drop_last() == declared);
            }
            let search = find_child(&self.nodes[node].children, &parts[depth]);
            let child = match search {
                ChildSearch::Found(k) => self.nodes[node].children[k].target,
                ChildSearch::Missing(k) => self.add_child(node, k, &parts[depth]),
            };
            assert(self.places@[child as int] == target.take(depth + 1));
            let ghost before = self.nodes@;
            let ghost places = self.places@;
            let updated = min_ordinal(self.nodes[child].subtree_min_ordinal, ordinal);
            self.nodes[child].subtree_min_ordinal = updated;
            proof {
                assert forall|i: int| 0 <= i < before.len() implies (
                #[trigger] self.nodes[i]).children == before[i].children
                    && self.nodes[i].terminal_min_ordinal == before[i].terminal_min_ordinal by {}
                lemma_same_edges(before, self.nodes@, places, self.parents@);
                assert(is_prefix(places[child as int], target));
                assert forall|i: int| 0 <= i < self.nodes.len() implies (
                #[trigger] self.nodes[i]).subtree_min_ordinal == (if is_prefix(places[i], target)
                    && places[i].len() <= depth + 1 {
                    subtree_sum(places[i], all)
                } else {
                    subtree_sum(places[i], declared)
                }) by {
                    if i != child as int && is_prefix(places[i], target) && places[i].len() == depth + 1 {
                        assert(places[i] == places[child as int]);
                        if i < child as int {
                            assert(places[i] != places[child as int]);
                        } else {
                            assert(places[child as int] != places[i]);
                        }
                    }
                }
            }
            node = child;
            depth += 1;
        }
        proof {
            assert(target.take(depth as int) =~= target);
            assert(windows_path::names(parts@).len() == parts.len());
        }
        let ghost before = self.nodes@;
        let ghost places = self.places@;
        let last = min_ordinal(self.nodes[node].terminal_min_ordinal, ordinal);
        self.nodes[node].terminal_min_ordinal = last;
        self.declared = Ghost(self.declared@.push((target, ordinal)));
        proof {
            assert(all.drop_last() == declared);
            assert forall|i: int| 0 <= i < before.len() implies (
            #[trigger] self.nodes[i]).children == before[i].children
                && self.nodes[i].subtree_min_ordinal == before[i].subtree_min_ordinal by {}
            lemma_same_edges(before, self.nodes@, places, self.parents@);
            assert forall|i: int| 0 <= i < self.nodes.len() implies (
            #[trigger] self.nodes[i]).terminal_min_ordinal == terminal_sum(places[i], all) by {
                if i != node as int && places[i] == target {
                    if i < node as int {
                        assert(places[i] != places[node as int]);
                    } else {
                        assert(places[node as int] != places[i]);
                    }
                }
            }
            assert forall|i: int| 0 <= i < self.nodes.len() implies (
            #[trigger] self.nodes[i]).subtree_min_ordinal == subtree_sum(places[i], all) by {}
            assert forall|e: int| 0 <= e < all.len() implies places.contains((#[trigger] all[e]).0) by {
                if e < declared.len() {
                    assert(places.contains(declared[e].0));
                } else {
                    assert(places[node as int] == target);
                }
            }
        }
    }

    /// The smallest ordinal declared for a path that equals `path`, lies above it or lies below it.
    pub fn first_overlapping(&self, path: &str) -> (result: Option<usize>)
        requires
            self.well_formed(),
            windows_path::has_only_names(path@),
        ensures
            result == least_overlapping(self@, windows_path::components(path@)),
    {
        let parts = path_components(path);
        let ghost target = windows_path::components(path@);
        let ghost wanted = overlapping_with(target);
        let (above, node) = self.walk(&parts);
        match node {
            None => {
                proof {
                    lemma_least_congruent(self.declared@, strictly_above(target), wanted);
                }
                above
            },
            Some(last) => {
                proof {
                    let strict = strictly_above(target);
                    let below = at_or_below(target);
                    lemma_least_union(self.declared@, strict, below);
                    assert forall|i: int| 0 <= i < self.declared@.len() implies wanted(
                        #[trigger] self.declared@[i].0,
                    ) == (strict(self.declared@[i].0) || below(self.declared@[i].0)) by {
                        let p = self.declared@[i].0;
                        if is_prefix(p, target) && p.len() == target.len() {
                            assert(target.take(p.len() as int) =~= target);
                            assert(p.take(target.len() as int) =~= p);
                        }
                    }
                    lemma_least_congruent(self.declared@, either(strict, below), wanted);
                }
                min_optional_ordinal(above, self.nodes[last].subtree_min_ordinal)
            },
        }
    }

    /// The smallest ordinal declared for a strict ancestor of `path`.
    pub fn first_strict_ancestor(&self, path: &str) -> (result: Option<usize>)
        requires
            self.well_formed(),
            windows_path::has_only_names(path@),
        ensures
            result == least_strict_ancestor(self@, windows_path::components(path@)),
    {
        let parts = path_components(path);
        self.walk(&parts).0
    }

    /// Follows `parts` from the root. The first result is the smallest ordinal declared above
    /// `parts`; the second is the node of `parts` itself, absent when nothing lies at or below it.
    fn walk(&self, parts: &Vec<Vec<char>>) -> (result: (Option<usize>, Option<usize>))
        requires
            self.well_formed(),
        ensures
            result.0 == least_strict_ancestor(self@, windows_path::names(parts@)),
            match result.1 {
                Some(node) => node < self.nodes.len() && self.places@[node as int]
                    == windows_path::names(parts@),
                None => forall|e: int|
                    0 <= e < self.declared@.len() ==> (overlaps(
                        (#[trigger] self.declared@[e]).0,
                        windows_path::names(parts@),
                    ) ==> is_strict_ancestor(self.declared@[e].0, windows_path::names(parts@))),
            },
    {
        let ghost target = windows_path::names(parts@);
        let ghost strict = strictly_above(target);
        let mut node: usize = 0;
        let mut depth: usize = 0;
        let mut candidate: Option<usize> = None;
        proof {
            assert(target.len() == parts.len());
            assert(self.places@[0] =~= target.take(0));
            lemma_least_nothing(self.declared@);
            lemma_least_congruent(self.declared@, nowhere(), beginnings(target, 0));
        }
        while depth < parts.len()
            invariant
                self.well_formed(),
                target == windows_path::names(parts@),
                target.len() == parts.len(),
                strict == strictly_above(target),
                depth <= parts.len(),
                node < self.nodes.len(),
                self.places@[node as int] == target.take(depth as int),
                candidate == least_above(self.declared@, target, depth as int),
            decreases parts.len() - depth,
        {
            let ghost place = self.places@[node as int];
            proof {
                assert(target[depth as int] == parts[depth as int]@);
                assert(target.take(depth + 1) =~= target.take(depth as int).push(target[depth as int]));
                let earlier = beginnings(target, depth as int);
                lemma_least_union(self.declared@, earlier, exactly(place));
                lemma_least_congruent(
                    self.declared@,
                    either(earlier, exactly(place)),
                    beginnings(target, depth + 1),
                );
            }
            candidate = min_optional_ordinal(candidate, self.nodes[node].terminal_min_ordinal);
            match find_child(&self.nodes[node].children, &parts[depth]) {
                ChildSearch::Found(k) => {
                    node = self.nodes[node].children[k].target;
                },
                ChildSearch::Missing(_) => {
                    proof {
                        assert forall|k: int| 0 <= k < self.nodes[node as int].children.len() implies (
                        #[trigger] self.nodes[node as int].children[k]).name@ != parts[depth as int]@ by {
                            order::lemma_lex_irreflexive(order::codes(parts[depth as int]@));
                        }
                        let absent = target.take(depth + 1);
                        lemma_missing_child(
                            self.nodes@,
                            self.places@,
                            self.parents@,
                            node as int,
                            parts[depth as int]@,
                        );
                        lemma_nothing_below(
                            self.nodes@,
                            self.places@,
                            self.parents@,
                            self.declared@,
                            absent,
                        );
                        assert forall|e: int|
                            0 <= e < self.declared@.len() && overlaps(
                                (#[trigger] self.declared@[e]).0,
                                target,
                            ) implies is_prefix(self.declared@[e].0, target)
                            && self.declared@[e].0.len() < depth + 1 by {
                            let p = self.declared@[e].0;
                            assert(!is_prefix(absent, p));
                            if is_prefix(p, target) && p.len() >= depth + 1 {
                                assert(p.take(depth + 1) =~= absent);
                            }
                            if is_prefix(target, p) {
                                assert(p.take(depth + 1) =~= p.take(target.len() as int).take(depth + 1));
                            }
                        }
                        lemma_least_congruent(self.declared@, beginnings(target, depth + 1), strict);
                    }
                    return (candidate, None);
                },
            }
            depth += 1;
        }
        proof {
            assert(target.take(depth as int) =~= target);
            lemma_least_congruent(self.declared@, beginnings(target, depth as int), strict);
        }
        (candidate, Some(node))
    }

    /// The index of `paths`, each declared with its position.
    pub fn from_paths(paths: &Vec<String>) -> (index: Self)
        requires
            forall|i: int| 0 <= i < paths.len() ==> windows_path::has_only_names((#[trigger] paths[i])@),
        ensures
            index.well_formed(),
            index@ == declarations(paths@),
    {
        let mut index = Self::new();
        let mut ordinal: usize = 0;
        while ordinal < paths.len()
            invariant
                forall|i: int| 0 <= i < paths.len() ==> windows_path::has_only_names((#[trigger] paths[i])@),
                ordinal <= paths.len(),
                index.well_formed(),
                index@ == declarations(paths@).take(ordinal as int),
            decreases paths.len() - ordinal,
        {
            index.insert(paths[ordinal].as_str(), ordinal);
            proof {
                assert(declarations(paths@).take(ordinal + 1) =~= declarations(paths@).take(ordinal as int).push(
                    declarations(paths@)[ordinal as int],
                ));
            }
            ordinal += 1;
        }
        assert(declarations(paths@).take(paths.len() as int) =~= declarations(paths@));
        index
    }
}

/// Each path's components with its position.
pub open spec fn declarations(paths: Seq<String>) -> Seq<(Seq<Seq<char>>, usize)> {
    Seq::new(paths.len(), |i: int| (windows_path::components(paths[i]@), i as usize))
}

/// Shape does not depend on the recorded ordinals.
proof fn lemma_same_edges(
    before: Seq<Node>,
    after: Seq<Node>,
    places: Seq<Seq<Seq<char>>>,
    parents: Seq<int>,
)
    requires
        shape(before, places, parents),
        after.len() == before.len(),
        forall|i: int| 0 <= i < before.len() ==> (#[trigger] after[i]).children == before[i].children,
    ensures
        shape(after, places, parents),
{
    assert forall|j: int| 0 < j < after.len() implies 0 <= #[trigger] parents[j] < j && has_edge(
        after,
        parents[j],
        j,
    ) by {
        let i = parents[j];
        assert(has_edge(before, i, j));
        let k = choose|k: int|
            0 <= k < before[i].children.len() && (#[trigger] before[i].children[k]).target == j;
        assert(after[i].children[k].target == j);
    }
    assert forall|i: int, k: int| 0 <= i < after.len() && 0 <= k < after[i].children.len() implies {
        let edge = #[trigger] after[i].children[k];
        i < edge.target < after.len() && places[edge.target as int] == places[i].push(edge.name@)
    } by {
        assert(after[i].children[k] == before[i].children[k]);
    }
}

/// The first later path that overlaps path `i`.
pub open spec fn is_first_later_overlap(paths: Seq<String>, i: int, result: Option<usize>) -> bool {
    match result {
        Some(j) => {
            &&& i < j < paths.len()
            &&& overlaps(windows_path::components(paths[j as int]@), windows_path::components(paths[i]@))
            &&& forall|m: int|
                i < m < j ==> !overlaps(
                    windows_path::components((#[trigger] paths[m])@),
                    windows_path::components(paths[i]@),
                )
        },
        None => forall|m: int|
            i < m < paths.len() ==> !overlaps(
                windows_path::components((#[trigger] paths[m])@),
                windows_path::components(paths[i]@),
            ),
    }
}

/// For each path, the first later path that equals it, contains it or lies in it.
pub fn overlapping_later_paths(paths: &Vec<String>) -> (overlapping: Vec<Option<usize>>)
    requires
        forall|i: int| 0 <= i < paths.len() ==> windows_path::has_only_names((#[trigger] paths[i])@),
    ensures
        overlapping.len() == paths.len(),
        forall|i: int|
            0 <= i < paths.len() ==> is_first_later_overlap(paths@, i, #[trigger] overlapping[i]),
{
    let mut suffix = RelativePathIndex::new();
    let mut overlapping: Vec<Option<usize>> = Vec::new();
    let mut filled: usize = 0;
    while filled < paths.len()
        invariant
            filled <= paths.len(),
            overlapping.len() == filled,
            forall|i: int| 0 <= i < filled ==> #[trigger] overlapping[i] is None,
        decreases paths.len() - filled,
    {
        overlapping.push(None);
        filled += 1;
    }
    let mut ordinal: usize = paths.len();
    while ordinal > 0
        invariant
            forall|i: int| 0 <= i < paths.len() ==> windows_path::has_only_names((#[trigger] paths[i])@),
            ordinal <= paths.len(),
            overlapping.len() == paths.len(),
            suffix.well_formed(),
            suffix@.len() == paths.len() - ordinal,
            forall|e: int|
                0 <= e < suffix@.len() ==> {
                    &&& (#[trigger] suffix@[e]).1 == paths.len() - 1 - e
                    &&& suffix@[e].0 == windows_path::components(paths[paths.len() - 1 - e]@)
                },
            forall|i: int|
                ordinal <= i < paths.len() ==> is_first_later_overlap(paths@, i, #[trigger] overlapping[i]),
        decreases ordinal,
    {
        ordinal -= 1;
        let found = suffix.first_overlapping(paths[ordinal].as_str());
        proof {
            let own = windows_path::components(paths[ordinal as int]@);
            let wanted = overlapping_with(own);
            lemma_least_meaning(suffix@, wanted);
            let last = paths.len() - 1;
            match found {
                Some(j) => {
                    assert forall|m: int| ordinal < m < j implies !overlaps(
                        windows_path::components((#[trigger] paths[m])@),
                        own,
                    ) by {
                        assert(!wanted(suffix@[last - m].0) || j <= suffix@[last - m].1);
                    }
                },
                None => {
                    assert forall|m: int| ordinal < m < paths.len() implies !overlaps(
                        windows_path::components((#[trigger] paths[m])@),
                        own,
                    ) by {
                        assert(!wanted(suffix@[last - m].0));
                    }
                },
            }
        }
        overlapping[ordinal] = found;
        suffix.insert(paths[ordinal].as_str(), ordinal);
    }
    overlapping
}

} // verus!
