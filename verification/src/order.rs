//! Lexicographic order.

use vstd::prelude::*;

verus! {

/// `left` comes before `right`: they first differ where `left` is smaller, or `left`
/// is a proper prefix of `right`.
pub open spec fn lex_lt(left: Seq<int>, right: Seq<int>) -> bool
    decreases left.len(),
{
    if right.len() == 0 {
        false
    } else if left.len() == 0 {
        true
    } else if left[0] != right[0] {
        left[0] < right[0]
    } else {
        lex_lt(left.drop_first(), right.drop_first())
    }
}

/// The code points of a text.
pub open spec fn codes(text: Seq<char>) -> Seq<int> {
    text.map_values(|c: char| c as int)
}

/// The order of texts by code point.
pub open spec fn text_lt(left: Seq<char>, right: Seq<char>) -> bool {
    lex_lt(codes(left), codes(right))
}

pub proof fn lemma_lex_irreflexive(s: Seq<int>)
    ensures
        !lex_lt(s, s),
    decreases s.len(),
{
    if s.len() > 0 {
        lemma_lex_irreflexive(s.drop_first());
    }
}

pub proof fn lemma_lex_transitive(a: Seq<int>, b: Seq<int>, c: Seq<int>)
    requires
        lex_lt(a, b),
        lex_lt(b, c),
    ensures
        lex_lt(a, c),
    decreases a.len(),
{
    if a.len() > 0 && a[0] == b[0] && b[0] == c[0] {
        lemma_lex_transitive(a.drop_first(), b.drop_first(), c.drop_first());
    }
}

pub proof fn lemma_lex_trichotomy(a: Seq<int>, b: Seq<int>)
    ensures
        lex_lt(a, b) || a == b || lex_lt(b, a),
    decreases a.len(),
{
    if a.len() > 0 && b.len() > 0 && a[0] == b[0] {
        lemma_lex_trichotomy(a.drop_first(), b.drop_first());
        if a.drop_first() == b.drop_first() {
            assert(a =~= seq![a[0]] + a.drop_first());
            assert(b =~= seq![b[0]] + b.drop_first());
        }
    } else if a.len() == 0 && b.len() == 0 {
        assert(a =~= b);
    }
}

/// A common beginning does not decide the order.
pub proof fn lemma_lex_common_prefix(a: Seq<int>, b: Seq<int>, n: int)
    requires
        0 <= n <= a.len(),
        n <= b.len(),
        a.take(n) == b.take(n),
    ensures
        lex_lt(a, b) == lex_lt(a.skip(n), b.skip(n)),
    decreases n,
{
    if n == 0 {
        assert(a.skip(0) =~= a);
        assert(b.skip(0) =~= b);
    } else {
        assert(a[0] == a.take(n)[0]);
        assert(b[0] == b.take(n)[0]);
        assert(lex_lt(a, b) == lex_lt(a.drop_first(), b.drop_first()));
        assert(a.drop_first().take(n - 1) =~= a.take(n).drop_first());
        assert(b.drop_first().take(n - 1) =~= b.take(n).drop_first());
        lemma_lex_common_prefix(a.drop_first(), b.drop_first(), n - 1);
        assert(a.drop_first().skip(n - 1) =~= a.skip(n));
        assert(b.drop_first().skip(n - 1) =~= b.skip(n));
    }
}

/// How one value stands to another.
#[derive(Clone, Copy, Debug, PartialEq, Eq, Structural)]
pub enum Comparison {
    Less,
    Equal,
    Greater,
}

/// The order of two texts by code point.
pub fn order_of(left: &Vec<char>, right: &Vec<char>) -> (result: Comparison)
    ensures
        result == Comparison::Less ==> text_lt(left@, right@),
        result == Comparison::Equal ==> left@ == right@,
        result == Comparison::Greater ==> text_lt(right@, left@),
{
    let mut i: usize = 0;
    while i < left.len() && i < right.len()
        invariant
            i <= left.len(),
            i <= right.len(),
            left@.take(i as int) == right@.take(i as int),
        decreases left.len() - i,
    {
        if left[i] != right[i] {
            proof {
                lemma_first_difference(left@, right@, i as int);
            }
            if left[i] < right[i] {
                return Comparison::Less;
            } else {
                return Comparison::Greater;
            }
        }
        assert(left@.take(i + 1) =~= left@.take(i as int).push(left[i as int]));
        assert(right@.take(i + 1) =~= right@.take(i as int).push(right[i as int]));
        i += 1;
    }
    proof {
        assert(codes(left@.take(i as int)) =~= codes(left@).take(i as int));
        assert(codes(right@.take(i as int)) =~= codes(right@).take(i as int));
        lemma_lex_common_prefix(codes(left@), codes(right@), i as int);
        lemma_lex_common_prefix(codes(right@), codes(left@), i as int);
    }
    if left.len() == right.len() {
        assert(left@.take(i as int) =~= left@);
        assert(right@.take(i as int) =~= right@);
        Comparison::Equal
    } else if left.len() < right.len() {
        Comparison::Less
    } else {
        Comparison::Greater
    }
}

proof fn lemma_first_difference(left: Seq<char>, right: Seq<char>, i: int)
    requires
        0 <= i < left.len(),
        i < right.len(),
        left.take(i) == right.take(i),
        left[i] != right[i],
    ensures
        text_lt(left, right) == (left[i] < right[i]),
        text_lt(right, left) == (right[i] < left[i]),
{
    assert(codes(left.take(i)) =~= codes(left).take(i));
    assert(codes(right.take(i)) =~= codes(right).take(i));
    lemma_lex_common_prefix(codes(left), codes(right), i);
    lemma_lex_common_prefix(codes(right), codes(left), i);
    assert(codes(left).skip(i)[0] == left[i] as int);
    assert(codes(right).skip(i)[0] == right[i] as int);
}

/// The order of two integer keys.
pub fn key_order(left: &Vec<i64>, right: &Vec<i64>) -> (result: Comparison)
    ensures
        result == Comparison::Less ==> lex_lt(integers(left@), integers(right@)),
        result == Comparison::Equal ==> left@ == right@,
        result == Comparison::Greater ==> lex_lt(integers(right@), integers(left@)),
{
    let mut i: usize = 0;
    while i < left.len() && i < right.len()
        invariant
            i <= left.len(),
            i <= right.len(),
            left@.take(i as int) == right@.take(i as int),
        decreases left.len() - i,
    {
        proof {
            assert(integers(left@.take(i as int)) =~= integers(left@).take(i as int));
            assert(integers(right@.take(i as int)) =~= integers(right@).take(i as int));
            lemma_lex_common_prefix(integers(left@), integers(right@), i as int);
            lemma_lex_common_prefix(integers(right@), integers(left@), i as int);
            assert(integers(left@).skip(i as int)[0] == left[i as int] as int);
            assert(integers(right@).skip(i as int)[0] == right[i as int] as int);
        }
        if left[i] < right[i] {
            return Comparison::Less;
        }
        if right[i] < left[i] {
            return Comparison::Greater;
        }
        assert(left@.take(i + 1) =~= left@.take(i as int).push(left[i as int]));
        assert(right@.take(i + 1) =~= right@.take(i as int).push(right[i as int]));
        i += 1;
    }
    proof {
        assert(integers(left@.take(i as int)) =~= integers(left@).take(i as int));
        assert(integers(right@.take(i as int)) =~= integers(right@).take(i as int));
        lemma_lex_common_prefix(integers(left@), integers(right@), i as int);
        lemma_lex_common_prefix(integers(right@), integers(left@), i as int);
    }
    if left.len() == right.len() {
        assert(left@.take(i as int) =~= left@);
        assert(right@.take(i as int) =~= right@);
        Comparison::Equal
    } else if left.len() < right.len() {
        Comparison::Less
    } else {
        Comparison::Greater
    }
}

/// The same numbers as mathematical integers.
pub open spec fn integers(numbers: Seq<i64>) -> Seq<int> {
    numbers.map_values(|n: i64| n as int)
}

} // verus!
