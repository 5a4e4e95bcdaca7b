//! The grammar of Windows paths, on characters.
//!
//! A path is its text. Both `/` and `\` separate segments; a leading separator or
//! a drive such as `C:` anchors the path; empty segments and `.` name nothing.

use vstd::prelude::*;
use crate::text::characters;

verus! {

/// One name per element, as the characters of that name.
pub open spec fn names(components: Seq<Vec<char>>) -> Seq<Seq<char>> {
    components.map_values(|name: Vec<char>| name@)
}

pub open spec fn is_separator(c: char) -> bool {
    c == '/' || c == '\\'
}

/// The text between separators, in order; a path with `n` separators has `n + 1` segments.
pub open spec fn segments(path: Seq<char>) -> Seq<Seq<char>>
    decreases path.len(),
{
    if path.len() == 0 {
        seq![Seq::empty()]
    } else {
        let before = segments(path.drop_last());
        if is_separator(path.last()) {
            before.push(Seq::empty())
        } else {
            before.drop_last().push(before.last().push(path.last()))
        }
    }
}

pub open spec fn current_directory() -> Seq<char> {
    seq!['.']
}

pub open spec fn parent_directory() -> Seq<char> {
    seq!['.', '.']
}

pub open spec fn is_ascii_letter(c: char) -> bool {
    'a' <= c <= 'z' || 'A' <= c <= 'Z'
}

/// Whether the path starts at a root, a share or a drive instead of a current directory.
pub open spec fn is_anchored(path: Seq<char>) -> bool {
    ||| path.len() > 0 && is_separator(path[0])
    ||| path.len() > 1 && is_ascii_letter(path[0]) && path[1] == ':'
}

pub open spec fn names_entry(segment: Seq<char>) -> bool {
    segment.len() > 0 && segment != current_directory()
}

/// The names that an unanchored path walks through.
pub open spec fn components(path: Seq<char>) -> Seq<Seq<char>> {
    segments(path).filter(|segment: Seq<char>| names_entry(segment))
}

/// Whether every component is an ordinary name: no anchor, no leading `.`, no `..`.
pub open spec fn has_only_names(path: Seq<char>) -> bool {
    &&& !is_anchored(path)
    &&& segments(path)[0] != current_directory()
    &&& !segments(path).contains(parent_directory())
}

/// A path has at least one segment.
pub proof fn lemma_segments_nonempty(path: Seq<char>)
    ensures
        segments(path).len() > 0,
    decreases path.len(),
{
    if path.len() > 0 {
        lemma_segments_nonempty(path.drop_last());
    }
}

pub fn path_segments(path: &str) -> (result: Vec<Vec<char>>)
    ensures
        names(result@) == segments(path@),
{
    let chars = characters(path);
    let mut done: Vec<Vec<char>> = Vec::new();
    let mut current: Vec<char> = Vec::new();
    let mut i: usize = 0;
    assert(names(done@).push(current@) == segments(chars@.take(0)));
    while i < chars.len()
        invariant
            i <= chars.len(),
            names(done@).push(current@) == segments(chars@.take(i as int)),
        decreases chars.len() - i,
    {
        proof {
            assert(chars@.take(i + 1).drop_last() == chars@.take(i as int));
            assert(names(done@).push(current@).drop_last() == names(done@));
        }
        let c = chars[i];
        if c == '/' || c == '\\' {
            let ghost before = done@;
            done.push(current);
            assert(names(done@) == names(before).push(done@.last()@));
            current = Vec::new();
            assert(current@ == Seq::<char>::empty());
        } else {
            current.push(c);
        }
        i += 1;
    }
    assert(chars@.take(chars.len() as int) == chars@);
    let ghost before = done@;
    done.push(current);
    assert(names(done@) == names(before).push(done@.last()@));
    done
}

fn is_name(segment: &Vec<char>) -> (result: bool)
    ensures
        result == names_entry(segment@),
{
    if segment.len() == 1 {
        assert(segment[0] == '.' ==> segment@ == current_directory());
        segment[0] != '.'
    } else {
        segment.len() != 0
    }
}

/// The names that `path` walks through.
pub fn path_components(path: &str) -> (result: Vec<Vec<char>>)
    ensures
        names(result@) == components(path@),
{
    let all = path_segments(path);
    let mut result: Vec<Vec<char>> = Vec::new();
    let ghost is_entry = |segment: Seq<char>| names_entry(segment);
    let mut i: usize = 0;
    proof {
        reveal(Seq::filter);
        assert(names(all@).take(0).filter(is_entry) == Seq::<Seq<char>>::empty());
    }
    while i < all.len()
        invariant
            i <= all.len(),
            is_entry == (|segment: Seq<char>| names_entry(segment)),
            names(result@) == names(all@).take(i as int).filter(is_entry),
        decreases all.len() - i,
    {
        proof {
            reveal(Seq::filter);
            assert(names(all@).take(i + 1).drop_last() == names(all@).take(i as int));
            assert(names(all@).take(i + 1).last() == all[i as int]@);
        }
        if is_name(&all[i]) {
            let ghost before = result@;
            let name = copied(&all[i]);
            result.push(name);
            assert(names(result@) == names(before).push(name@));
        }
        i += 1;
    }
    assert(names(all@).take(all.len() as int) == names(all@));
    result
}

/// A vector with the same characters.
pub fn copied(name: &Vec<char>) -> (copy: Vec<char>)
    ensures
        copy@ == name@,
{
    let mut copy: Vec<char> = Vec::with_capacity(name.len());
    let mut i: usize = 0;
    while i < name.len()
        invariant
            i <= name.len(),
            copy@ == name@.take(i as int),
        decreases name.len() - i,
    {
        copy.push(name[i]);
        i += 1;
    }
    assert(name@.take(name.len() as int) == name@);
    copy
}

/// Whether `path` starts at a root, a share or a drive.
pub fn anchored(path: &str) -> (result: bool)
    ensures
        result == is_anchored(path@),
{
    let chars = characters(path);
    if chars.len() == 0 {
        return false;
    }
    let first = chars[0];
    if first == '/' || first == '\\' {
        return true;
    }
    chars.len() > 1 && (('a' <= first && first <= 'z') || ('A' <= first && first <= 'Z'))
        && chars[1] == ':'
}

fn is_dots(segment: &Vec<char>, count: usize) -> (result: bool)
    requires
        count == 1 || count == 2,
    ensures
        result == (segment@ == (if count == 1 { current_directory() } else { parent_directory() })),
{
    if segment.len() != count {
        return false;
    }
    let result = segment[0] == '.' && segment[count - 1] == '.';
    assert(result ==> segment@ == (if count == 1 { current_directory() } else { parent_directory() }));
    result
}

/// Whether some segment of `path` is made of `count` dots and nothing else.
pub fn has_dots_segment(path: &str, count: usize) -> (result: bool)
    requires
        count == 1 || count == 2,
    ensures
        result == segments(path@).contains(
            (if count == 1 { current_directory() } else { parent_directory() }),
        ),
{
    let all = path_segments(path);
    let ghost wanted = if count == 1 { current_directory() } else { parent_directory() };
    let mut i: usize = 0;
    while i < all.len()
        invariant
            i <= all.len(),
            count == 1 || count == 2,
            wanted == (if count == 1 { current_directory() } else { parent_directory() }),
            forall|k: int| 0 <= k < i ==> names(all@)[k] != wanted,
            names(all@) == segments(path@),
        decreases all.len() - i,
    {
        if is_dots(&all[i], count) {
            assert(names(all@)[i as int] == wanted);
            return true;
        }
        assert(names(all@)[i as int] != wanted);
        i += 1;
    }
    false
}

/// Whether every component of `path` is an ordinary name.
pub fn only_names(path: &str) -> (result: bool)
    ensures
        result == has_only_names(path@),
{
    let all = path_segments(path);
    proof {
        lemma_segments_nonempty(path@);
        assert(names(all@).len() == all.len());
        assert(names(all@)[0] == all[0]@);
    }
    !anchored(path) && !is_dots(&all[0], 1) && !has_dots_segment(path, 2)
}

} // verus!
