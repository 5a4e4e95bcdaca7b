//! What holds of every path, and of every request that is made of paths.

use vstd::prelude::*;
use crate::candidate;
use crate::candidate::{
    DirectoryFileOverlay, DirectorySourceMapping, DirectoryStageRequestError, StageFault,
};
use crate::fingerprint;
use crate::fingerprint::{
    DirectoryTreeFingerprintRequest, DirectoryTreeFingerprintRequestError, DirectoryTreeRoot,
};
use crate::lease;
use crate::lease::{ExclusiveFileLeaseRequest, ExclusiveFileLeaseRequestError};
use crate::path_index;
use crate::scoped;
use crate::scoped::{ScopedDirectoryPath, ScopedDirectoryScope, ScopedDirectoryScopeError};
use crate::search;
use crate::text_order;
use crate::windows_path;

verus! {

/// Whether the text holds neither kind of slash.
pub open spec fn is_unbroken(text: Seq<char>) -> bool {
    forall|i: int| 0 <= i < text.len() ==> #[trigger] text[i] != '/' && text[i] != '\\'
}

/// A text without slashes is one segment; each slash ends a segment and begins another.
pub proof fn slashes_part_segments(path: Seq<char>, slash: char, text: Seq<char>)
    requires
        slash == '/' || slash == '\\',
        is_unbroken(text),
    ensures
        windows_path::segments(text) == seq![text],
        windows_path::segments(path.push(slash) + text) == windows_path::segments(path).push(text),
    decreases text.len(),
{
    windows_path::lemma_segments_nonempty(path);
    if text.len() == 0 {
        assert(path.push(slash) + text =~= path.push(slash));
        assert(path.push(slash).drop_last() =~= path);
        assert(text =~= Seq::<char>::empty());
    } else {
        let shorter = text.drop_last();
        assert(is_unbroken(shorter)) by {
            assert forall|i: int| 0 <= i < shorter.len() implies #[trigger] shorter[i] != '/'
                && shorter[i] != '\\' by {
                assert(shorter[i] == text[i]);
            }
        }
        slashes_part_segments(path, slash, shorter);
        assert(text[text.len() - 1] != '/' && text[text.len() - 1] != '\\');
        assert(shorter.push(text.last()) =~= text);
        let whole = path.push(slash) + text;
        assert(whole.drop_last() =~= path.push(slash) + shorter);
        assert(whole.last() == text.last());
        let before = windows_path::segments(path).push(shorter);
        assert(before.drop_last() =~= windows_path::segments(path));
        assert(windows_path::segments(whole) =~= windows_path::segments(path).push(text));
        assert(seq![shorter].drop_last() =~= Seq::<Seq<char>>::empty());
        assert(windows_path::segments(text) =~= seq![text]);
    }
}

/// A path walks through its segments in order, but for those that are empty or one dot.
pub proof fn paths_walk_through_their_segments(path: Seq<char>, slash: char, text: Seq<char>)
    requires
        slash == '/' || slash == '\\',
        is_unbroken(text),
    ensures
        ({
            let own = if text.len() == 0 || text == seq!['.'] {
                Seq::<Seq<char>>::empty()
            } else {
                seq![text]
            };
            &&& windows_path::components(text) == own
            &&& windows_path::components(path.push(slash) + text) == windows_path::components(path)
                + own
        }),
{
    slashes_part_segments(path, slash, text);
    let is_entry = |segment: Seq<char>| windows_path::names_entry(segment);
    let before = windows_path::segments(path);
    assert(before.push(text).drop_last() =~= before);
    assert(seq![text].drop_last() =~= Seq::<Seq<char>>::empty());
    assert(windows_path::components(path) == before.filter(is_entry));
    assert(windows_path::components(text) == seq![text].filter(is_entry));
    assert(windows_path::components(path.push(slash) + text) == before.push(text).filter(is_entry));
    reveal(Seq::filter);
    assert(Seq::<Seq<char>>::empty().filter(is_entry) =~= Seq::<Seq<char>>::empty());
    assert(before.push(text).last() == text);
    assert(seq![text].last() == text);
    let own = if text.len() == 0 || text == seq!['.'] {
        Seq::<Seq<char>>::empty()
    } else {
        seq![text]
    };
    assert(seq![text].filter(is_entry) =~= own);
    assert(before.push(text).filter(is_entry) =~= before.filter(is_entry) + own);
}

/// Whether the path starts with a slash of either kind, or with a letter and a colon.
pub open spec fn starts_somewhere(path: Seq<char>) -> bool {
    ||| path.len() >= 1 && (path[0] == '/' || path[0] == '\\')
    ||| path.len() >= 2 && path[1] == ':' && ('a' <= path[0] <= 'z' || 'A' <= path[0] <= 'Z')
}

/// Which paths may name a place in a candidate, the root of a tree, or a directory that may
/// be edited: those that start nowhere in particular and never step back or stay.
pub proof fn names_are_told_from_paths(path: Seq<char>)
    ensures
        candidate::is_stage_relative(path) <==> path.len() > 0 && !starts_somewhere(path) && forall|
            i: int,
        |
            0 <= i < windows_path::segments(path).len() ==> #[trigger] windows_path::segments(path)[i]
                != seq!['.'] && windows_path::segments(path)[i] != seq!['.', '.'],
        fingerprint::is_logical_root(path) <==> path.len() > 0 && !starts_somewhere(path)
            && windows_path::segments(path)[0] != seq!['.'] && forall|i: int|
            0 <= i < windows_path::segments(path).len() ==> #[trigger] windows_path::segments(path)[i]
                != seq!['.', '.'],
        scoped::is_top_level_name(path) <==> ({
            &&& !starts_somewhere(path)
            &&& windows_path::segments(path)[0] != seq!['.']
            &&& forall|i: int|
                0 <= i < windows_path::segments(path).len() ==> #[trigger] windows_path::segments(
                    path,
                )[i] != seq!['.', '.']
            &&& windows_path::components(path).len() == 1
            &&& forall|i: int|
                0 <= i < windows_path::components(path)[0].len()
                    ==> #[trigger] windows_path::components(path)[0][i] != ':'
        }),
        windows_path::is_anchored(path) <==> starts_somewhere(path),
{
    let all = windows_path::segments(path);
    if forall|i: int| 0 <= i < all.len() ==> #[trigger] all[i] != seq!['.', '.'] {
        assert(!all.contains(seq!['.', '.']));
    }
    if forall|i: int| 0 <= i < all.len() ==> #[trigger] all[i] != seq!['.'] {
        assert(!all.contains(seq!['.']));
    }
    if windows_path::components(path).len() == 1 {
        let name = windows_path::components(path)[0];
        if forall|i: int| 0 <= i < name.len() ==> #[trigger] name[i] != ':' {
            assert(!name.contains(':'));
        }
    }
}

/// Whether two walks agree as far as both go.
pub open spec fn agree(left: Seq<Seq<char>>, right: Seq<Seq<char>>) -> bool {
    forall|k: int| 0 <= k < left.len() && k < right.len() ==> #[trigger] left[k] == #[trigger] right[k]
}

/// Two places overlap exactly when their walks agree as far as both go; one lies strictly
/// above the other when its walk also ends first.
pub proof fn overlaps_are_common_beginnings(left: Seq<Seq<char>>, right: Seq<Seq<char>>)
    ensures
        path_index::overlaps(left, right) <==> agree(left, right),
        path_index::is_strict_ancestor(left, right) <==> agree(left, right) && left.len()
            < right.len(),
{
    if agree(left, right) {
        if left.len() <= right.len() {
            assert(right.take(left.len() as int) =~= left);
        } else {
            assert(left.take(right.len() as int) =~= right);
        }
    }
    if path_index::is_prefix(left, right) {
        assert forall|k: int| 0 <= k < left.len() && k < right.len() implies #[trigger] left[k]
            == #[trigger] right[k] by {
            assert(right.take(left.len() as int)[k] == right[k]);
        }
    }
    if path_index::is_prefix(right, left) {
        assert forall|k: int| 0 <= k < left.len() && k < right.len() implies #[trigger] left[k]
            == #[trigger] right[k] by {
            assert(left.take(right.len() as int)[k] == left[k]);
        }
    }
}

/// Whether `answer` is the smallest number among the declared walks that meet a condition,
/// absent only when none does.
pub open spec fn is_smallest(
    declared: Seq<(Seq<Seq<char>>, usize)>,
    meets: spec_fn(Seq<Seq<char>>) -> bool,
    answer: Option<usize>,
) -> bool {
    match answer {
        Some(ordinal) => {
            &&& exists|i: int|
                0 <= i < declared.len() && meets((#[trigger] declared[i]).0) && declared[i].1 == ordinal
            &&& forall|i: int|
                0 <= i < declared.len() && meets((#[trigger] declared[i]).0) ==> ordinal
                    <= declared[i].1
        },
        None => forall|i: int| 0 <= i < declared.len() ==> !meets((#[trigger] declared[i]).0),
    }
}

/// The index answers with the smallest number among the declared walks that agree with the
/// one asked for, or that are strictly above it.
pub proof fn indexes_answer_with_the_smallest(
    declared: Seq<(Seq<Seq<char>>, usize)>,
    path: Seq<Seq<char>>,
)
    ensures
        is_smallest(
            declared,
            |walk: Seq<Seq<char>>| agree(walk, path),
            path_index::least_overlapping(declared, path),
        ),
        is_smallest(
            declared,
            |walk: Seq<Seq<char>>| agree(walk, path) && walk.len() < path.len(),
            path_index::least_strict_ancestor(declared, path),
        ),
{
    let meeting = |walk: Seq<Seq<char>>| agree(walk, path);
    let above = |walk: Seq<Seq<char>>| agree(walk, path) && walk.len() < path.len();
    assert forall|i: int| 0 <= i < declared.len() implies path_index::overlapping_with(path)(
        (#[trigger] declared[i]).0,
    ) == meeting(declared[i].0) && path_index::strictly_above(path)(declared[i].0) == above(
        declared[i].0,
    ) by {
        overlaps_are_common_beginnings(declared[i].0, path);
    }
    path_index::lemma_least_congruent(declared, path_index::overlapping_with(path), meeting);
    path_index::lemma_least_congruent(declared, path_index::strictly_above(path), above);
    path_index::lemma_least_meaning(declared, meeting);
    path_index::lemma_least_meaning(declared, above);
}

/// Whether the places of two paths meet: their walks agree as far as both go.
pub open spec fn meet(left: Seq<char>, right: Seq<char>) -> bool {
    agree(windows_path::components(left), windows_path::components(right))
}

/// Whether no two of the paths meet.
pub open spec fn apart(paths: Seq<Seq<char>>) -> bool {
    forall|i: int, j: int|
        0 <= i < j < paths.len() ==> !meet(#[trigger] paths[i], #[trigger] paths[j])
}

/// Whether no path of one kind meets one of the other.
pub open spec fn apart_from(left: Seq<Seq<char>>, right: Seq<Seq<char>>) -> bool {
    forall|i: int, j: int|
        0 <= i < left.len() && 0 <= j < right.len() ==> !meet(#[trigger] left[i], #[trigger] right[j])
}

/// Whether a file lies strictly inside one of the sources.
pub open spec fn is_inside(sources: Seq<Seq<char>>, file: Seq<char>) -> bool {
    exists|j: int|
        {
            &&& 0 <= j < sources.len()
            &&& meet(#[trigger] sources[j], file)
            &&& windows_path::components(sources[j]).len() < windows_path::components(file).len()
        }
}

/// Whether every file lies strictly inside a source or meets none.
pub open spec fn covers_well(sources: Seq<Seq<char>>, files: Seq<Seq<char>>) -> bool {
    forall|i: int, j: int|
        0 <= i < files.len() && 0 <= j < sources.len() && !is_inside(sources, #[trigger] files[i])
            ==> !meet(#[trigger] sources[j], files[i])
}

proof fn lemma_meet(left: Seq<char>, right: Seq<char>)
    ensures
        candidate::path_overlap(left, right) == meet(left, right),
        meet(left, right) == meet(right, left),
        path_index::is_strict_ancestor(
            windows_path::components(left),
            windows_path::components(right),
        ) == (meet(left, right) && windows_path::components(left).len() < windows_path::components(
            right,
        ).len()),
{
    overlaps_are_common_beginnings(windows_path::components(left), windows_path::components(right));
}

proof fn lemma_first_overlap(paths: Seq<Seq<char>>, from: int, path: Seq<char>)
    requires
        0 <= from,
    ensures
        match candidate::first_overlap(paths, from, path) {
            Some(j) => from <= j < paths.len() && meet(paths[j], path) && meet(path, paths[j])
                && forall|k: int| from <= k < j ==> !meet(#[trigger] paths[k], path),
            None => forall|k: int| from <= k < paths.len() ==> !meet(#[trigger] paths[k], path) && !meet(
                path,
                paths[k],
            ),
        },
{
    let holds = |j: int| candidate::path_overlap(paths[j], path);
    search::lemma_first_meaning(holds, from, paths.len() as int);
    assert forall|k: int| from <= k < paths.len() implies holds(k) == meet(#[trigger] paths[k], path)
        && meet(path, paths[k]) == meet(paths[k], path) by {
        lemma_meet(paths[k], path);
    }
}

proof fn lemma_inside(sources: Seq<Seq<char>>, file: Seq<char>)
    ensures
        candidate::lies_inside(sources, file) == is_inside(sources, file),
{
    assert forall|j: int| 0 <= j < sources.len() implies path_index::is_strict_ancestor(
        windows_path::components(#[trigger] sources[j]),
        windows_path::components(file),
    ) == (meet(sources[j], file) && windows_path::components(sources[j]).len()
        < windows_path::components(file).len()) by {
        lemma_meet(sources[j], file);
    }
    if candidate::lies_inside(sources, file) {
        let j = choose|j: int|
            0 <= j < sources.len() && path_index::is_strict_ancestor(
                windows_path::components(#[trigger] sources[j]),
                windows_path::components(file),
            );
        assert(meet(sources[j], file));
    }
    if is_inside(sources, file) {
        let j = choose|j: int|
            {
                &&& 0 <= j < sources.len()
                &&& meet(#[trigger] sources[j], file)
                &&& windows_path::components(sources[j]).len() < windows_path::components(file).len()
            };
        assert(path_index::is_strict_ancestor(
            windows_path::components(sources[j]),
            windows_path::components(file),
        ));
    }
}

/// Whether a fault points at a clash that is really there.
pub open spec fn is_real(
    fault: StageFault,
    target_root: Seq<char>,
    sources: Seq<Seq<char>>,
    files: Seq<Seq<char>>,
    directories: Seq<Seq<char>>,
) -> bool {
    match fault {
        StageFault::EmptyTargetRoot => target_root.len() == 0,
        StageFault::EmptySourceMappings => sources.len() == 0,
        StageFault::SourceTargets { first, second } => 0 <= first < second < sources.len() && meet(
            sources[first],
            sources[second],
        ),
        StageFault::Overlays { first, second } => 0 <= first < second < files.len() && meet(
            files[first],
            files[second],
        ),
        StageFault::OverlayAndSource { overlay, mapping } => 0 <= overlay < files.len() && 0 <= mapping
            < sources.len() && meet(files[overlay], sources[mapping]) && !is_inside(
            sources,
            files[overlay],
        ),
        StageFault::InvalidEmptyDirectory { index } => 0 <= index < directories.len()
            && !candidate::is_stage_relative(directories[index]),
        StageFault::EmptyDirectories { first, second } => 0 <= first < second < directories.len()
            && meet(directories[first], directories[second]),
        StageFault::EmptyDirectoryAndOverlay { directory, overlay } => 0 <= directory
            < directories.len() && 0 <= overlay < files.len() && meet(
            directories[directory],
            files[overlay],
        ),
        StageFault::EmptyDirectoryAndSource { directory, mapping } => 0 <= directory
            < directories.len() && 0 <= mapping < sources.len() && meet(
            directories[directory],
            sources[mapping],
        ),
    }
}

/// Whether the parts of a request can stand beside each other in one candidate.
pub open spec fn fits_together(
    target_root: Seq<char>,
    sources: Seq<Seq<char>>,
    files: Seq<Seq<char>>,
    directories: Seq<Seq<char>>,
) -> bool {
    &&& target_root.len() > 0
    &&& sources.len() > 0
    &&& apart(sources)
    &&& apart(files)
    &&& covers_well(sources, files)
    &&& forall|i: int|
        0 <= i < directories.len() ==> candidate::is_stage_relative(#[trigger] directories[i])
    &&& apart(directories)
    &&& apart_from(directories, files)
    &&& apart_from(directories, sources)
}

proof fn lemma_overlay_fault(sources: Seq<Seq<char>>, files: Seq<Seq<char>>, i: int)
    requires
        0 <= i < files.len(),
    ensures
        match candidate::overlay_fault(sources, files, i) {
            Some(fault) => (fault is Overlays || fault is OverlayAndSource) && is_real(
                fault,
                Seq::empty(),
                sources,
                files,
                Seq::empty(),
            ),
            None => {
                &&& forall|j: int| i < j < files.len() ==> !meet(files[i], #[trigger] files[j])
                &&& !is_inside(sources, files[i]) ==> forall|j: int|
                    0 <= j < sources.len() ==> !meet(#[trigger] sources[j], files[i])
            },
        },
{
    lemma_first_overlap(files, i + 1, files[i]);
    lemma_first_overlap(sources, 0, files[i]);
    lemma_inside(sources, files[i]);
}

proof fn lemma_directory_fault(
    sources: Seq<Seq<char>>,
    files: Seq<Seq<char>>,
    directories: Seq<Seq<char>>,
    i: int,
)
    requires
        0 <= i < directories.len(),
    ensures
        match candidate::empty_directory_fault(sources, files, directories, i) {
            Some(fault) => (fault is EmptyDirectories || fault is EmptyDirectoryAndOverlay
                || fault is EmptyDirectoryAndSource) && is_real(
                fault,
                Seq::empty(),
                sources,
                files,
                directories,
            ),
            None => {
                &&& forall|j: int| i < j < directories.len() ==> !meet(directories[i], #[trigger] directories[j])
                &&& forall|j: int| 0 <= j < files.len() ==> !meet(directories[i], #[trigger] files[j])
                &&& forall|j: int| 0 <= j < sources.len() ==> !meet(directories[i], #[trigger] sources[j])
            },
        },
{
    lemma_first_overlap(directories, i + 1, directories[i]);
    lemma_first_overlap(files, 0, directories[i]);
    lemma_first_overlap(sources, 0, directories[i]);
}

/// A request is accepted exactly when its parts can stand beside each other, and a refused
/// one is told of a clash that is really there. Clashes of sources are told before those of
/// files, and those before the ones of empty directories.
pub proof fn requests_are_refused_for_clashes(
    target_root: Seq<char>,
    sources: Seq<Seq<char>>,
    files: Seq<Seq<char>>,
    directories: Seq<Seq<char>>,
)
    ensures
        ({
            let fault = candidate::stage_fault(target_root, sources, files, directories);
            &&& fault is None <==> fits_together(target_root, sources, files, directories)
            &&& fault matches Some(fault) ==> is_real(fault, target_root, sources, files, directories)
            &&& fault == Some(StageFault::EmptyTargetRoot) <==> target_root.len() == 0
            &&& fault == Some(StageFault::EmptySourceMappings) <==> target_root.len() > 0
                && sources.len() == 0
            &&& (fault matches Some(fault) && fault is SourceTargets) <==> target_root.len() > 0
                && sources.len() > 0 && !apart(sources)
            &&& (fault matches Some(fault) && (fault is Overlays || fault is OverlayAndSource))
                <==> target_root.len() > 0 && sources.len() > 0 && apart(sources) && !(apart(files)
                && covers_well(sources, files))
            &&& (fault matches Some(fault) && (fault is EmptyDirectories
                || fault is EmptyDirectoryAndOverlay || fault is EmptyDirectoryAndSource)) ==> forall|
                i: int,
            |
                0 <= i < directories.len() ==> candidate::is_stage_relative(#[trigger] directories[i])
        }),
{
    let source_clashes = |i: int|
        candidate::first_overlap(sources, i + 1, sources[i]) is Some;
    let file_clashes = |i: int| candidate::overlay_fault(sources, files, i) is Some;
    let invalid = |i: int| !candidate::is_stage_relative(directories[i]);
    let directory_clashes = |i: int|
        candidate::empty_directory_fault(sources, files, directories, i) is Some;
    search::lemma_first_meaning(source_clashes, 0, sources.len() as int);
    search::lemma_first_meaning(file_clashes, 0, files.len() as int);
    search::lemma_first_meaning(invalid, 0, directories.len() as int);
    search::lemma_first_meaning(directory_clashes, 0, directories.len() as int);
    assert forall|i: int| 0 <= i < sources.len() implies source_clashes(i) == (exists|j: int|
        i < j < sources.len() && meet(#[trigger] sources[i], #[trigger] sources[j])) by {
        lemma_first_overlap(sources, i + 1, sources[i]);
    }
    let source_clash = search::first_such(source_clashes, 0, sources.len() as int);
    assert(source_clash is None <==> apart(sources)) by {
        if source_clash is None {
            assert forall|i: int, j: int| 0 <= i < j < sources.len() implies !meet(
                #[trigger] sources[i],
                #[trigger] sources[j],
            ) by {
                assert(!source_clashes(i));
            }
        } else {
            assert(source_clashes(source_clash->0));
        }
    }
    if let Some(i) = source_clash {
        lemma_first_overlap(sources, i + 1, sources[i]);
    }
    let file_clash = search::first_such(file_clashes, 0, files.len() as int);
    assert(file_clash is None <==> apart(files) && covers_well(sources, files)) by {
        if file_clash is None {
            assert forall|i: int, j: int| 0 <= i < j < files.len() implies !meet(
                #[trigger] files[i],
                #[trigger] files[j],
            ) by {
                assert(!file_clashes(i));
                lemma_overlay_fault(sources, files, i);
            }
            assert forall|i: int, j: int|
                0 <= i < files.len() && 0 <= j < sources.len() && !is_inside(
                    sources,
                    #[trigger] files[i],
                ) implies !meet(#[trigger] sources[j], files[i]) by {
                assert(!file_clashes(i));
                lemma_overlay_fault(sources, files, i);
            }
        } else {
            let i = file_clash->0;
            assert(file_clashes(i));
            lemma_overlay_fault(sources, files, i);
            if apart(files) && covers_well(sources, files) {
                match candidate::overlay_fault(sources, files, i)->0 {
                    StageFault::Overlays { first, second } => {
                        assert(!meet(files[first], files[second]));
                    },
                    StageFault::OverlayAndSource { overlay, mapping } => {
                        assert(!meet(sources[mapping], files[overlay]));
                        lemma_meet(sources[mapping], files[overlay]);
                    },
                    _ => {},
                }
            }
        }
    }
    if let Some(i) = file_clash {
        assert(file_clashes(i));
        lemma_overlay_fault(sources, files, i);
    }
    let wrong = search::first_such(invalid, 0, directories.len() as int);
    assert(wrong is None ==> forall|i: int|
        0 <= i < directories.len() ==> candidate::is_stage_relative(#[trigger] directories[i])) by {
        assert forall|i: int| wrong is None && 0 <= i < directories.len() implies candidate::is_stage_relative(
            #[trigger] directories[i],
        ) by {
            assert(!invalid(i));
        }
    }
    if let Some(i) = wrong {
        assert(invalid(i));
    }
    let directory_clash = search::first_such(directory_clashes, 0, directories.len() as int);
    assert(directory_clash is None <==> apart(directories) && apart_from(directories, files)
        && apart_from(directories, sources)) by {
        if directory_clash is None {
            assert forall|i: int, j: int| 0 <= i < j < directories.len() implies !meet(
                #[trigger] directories[i],
                #[trigger] directories[j],
            ) by {
                assert(!directory_clashes(i));
                lemma_directory_fault(sources, files, directories, i);
            }
            assert forall|i: int, j: int|
                0 <= i < directories.len() && 0 <= j < files.len() implies !meet(
                #[trigger] directories[i],
                #[trigger] files[j],
            ) by {
                assert(!directory_clashes(i));
                lemma_directory_fault(sources, files, directories, i);
            }
            assert forall|i: int, j: int|
                0 <= i < directories.len() && 0 <= j < sources.len() implies !meet(
                #[trigger] directories[i],
                #[trigger] sources[j],
            ) by {
                assert(!directory_clashes(i));
                lemma_directory_fault(sources, files, directories, i);
            }
        } else {
            assert(directory_clashes(directory_clash->0));
            lemma_directory_fault(sources, files, directories, directory_clash->0);
        }
    }
    if let Some(i) = directory_clash {
        assert(directory_clashes(i));
        lemma_directory_fault(sources, files, directories, i);
    }
}

/// The error of a refused request names the paths of the clash, each under its own name.
pub proof fn clashes_are_told_with_their_paths(
    error: DirectoryStageRequestError,
    fault: StageFault,
    sources: Seq<Seq<char>>,
    files: Seq<Seq<char>>,
    directories: Seq<Seq<char>>,
)
    requires
        candidate::reports_fault(error, fault, sources, files, directories),
    ensures
        error is EmptyTargetRoot <==> fault is EmptyTargetRoot,
        error is EmptySourceMappings <==> fault is EmptySourceMappings,
        !(error is EmptySourceDirectory),
        error matches DirectoryStageRequestError::OverlappingSourceTargets { first, second } ==> (fault
            matches StageFault::SourceTargets { first: i, second: j } && first@ == sources[i]
            && second@ == sources[j]),
        error matches DirectoryStageRequestError::OverlappingOverlays { first, second } ==> (fault
            matches StageFault::Overlays { first: i, second: j } && first@ == files[i] && second@
            == files[j]),
        error matches DirectoryStageRequestError::OverlappingEmptyDirectories { first, second } ==> (
        fault matches StageFault::EmptyDirectories { first: i, second: j } && first@ == directories[i]
            && second@ == directories[j]),
        error matches DirectoryStageRequestError::InvalidRelativePath { path } ==> (fault
            matches StageFault::InvalidEmptyDirectory { index } && path@ == directories[index]),
        error matches DirectoryStageRequestError::OverlayOverlapsSourceTarget {
            overlay,
            source_target,
        } ==> (fault matches StageFault::OverlayAndSource { overlay: i, mapping: j } && overlay@
            == files[i] && source_target@ == sources[j]),
        error matches DirectoryStageRequestError::EmptyDirectoryOverlapsSourceTarget {
            empty_directory,
            source_target,
        } ==> (fault matches StageFault::EmptyDirectoryAndSource { directory: i, mapping: j }
            && empty_directory@ == directories[i] && source_target@ == sources[j]),
        error matches DirectoryStageRequestError::EmptyDirectoryOverlapsOverlay {
            empty_directory,
            overlay,
        } ==> (fault matches StageFault::EmptyDirectoryAndOverlay { directory: i, overlay: j }
            && empty_directory@ == directories[i] && overlay@ == files[j]),
{
}

/// The trees of a fingerprint are accepted exactly when no two of their names meet; otherwise
/// the first that meets a later one is told, with the first that it meets.
pub proof fn trees_are_refused_for_clashes(roots: Seq<DirectoryTreeRoot>)
    ensures
        match fingerprint::first_overlapping(roots) {
            None => forall|i: int, j: int|
                0 <= i < j < roots.len() ==> !meet(
                    (#[trigger] roots[i]).logical(),
                    (#[trigger] roots[j]).logical(),
                ),
            Some(i) => {
                &&& fingerprint::later_overlap(roots, i) matches Some(j)
                &&& 0 <= i < j < roots.len()
                &&& meet(roots[i].logical(), roots[j].logical())
                &&& forall|k: int|
                    i < k < j ==> !meet(roots[i].logical(), (#[trigger] roots[k]).logical())
                &&& forall|m: int, k: int|
                    0 <= m < i && m < k < roots.len() ==> !meet(
                        (#[trigger] roots[m]).logical(),
                        (#[trigger] roots[k]).logical(),
                    )
            },
        },
{
    let some = fingerprint::overlapping_some(roots);
    search::lemma_first_meaning(some, 0, roots.len() as int);
    assert forall|i: int| 0 <= i < roots.len() implies match fingerprint::later_overlap(roots, i) {
        Some(j) => i < j < roots.len() && meet(roots[i].logical(), roots[j].logical()) && forall|k: int|
            i < k < j ==> !meet(roots[i].logical(), (#[trigger] roots[k]).logical()),
        None => forall|k: int|
            i < k < roots.len() ==> !meet(
                (#[trigger] roots[i]).logical(),
                (#[trigger] roots[k]).logical(),
            ),
    } && some(i) == (#[trigger] fingerprint::later_overlap(roots, i) is Some) by {
        let after = fingerprint::overlapping_after(roots, i);
        search::lemma_first_meaning(after, i + 1, roots.len() as int);
        assert forall|j: int| i < j < roots.len() implies after(j) == meet(
            roots[i].logical(),
            (#[trigger] roots[j]).logical(),
        ) by {
            lemma_meet(roots[j].logical(), roots[i].logical());
        }
    }
    match fingerprint::first_overlapping(roots) {
        None => {
            assert forall|i: int, j: int| 0 <= i < j < roots.len() implies !meet(
                (#[trigger] roots[i]).logical(),
                (#[trigger] roots[j]).logical(),
            ) by {
                assert(!some(i));
                assert(fingerprint::later_overlap(roots, i) is None);
            }
        },
        Some(i) => {
            assert(some(i));
            assert(fingerprint::later_overlap(roots, i) is Some);
            assert forall|m: int, k: int| 0 <= m < i && m < k < roots.len() implies !meet(
                (#[trigger] roots[m]).logical(),
                (#[trigger] roots[k]).logical(),
            ) by {
                assert(!some(m));
                assert(fingerprint::later_overlap(roots, m) is None);
            }
        },
    }
}

/// The first directory that cannot be part of a scope is told, and a scope is refused for one
/// exactly when there is one.
pub proof fn scopes_are_refused_for_their_first_misfit(roots: Seq<String>)
    ensures
        match scoped::first_unfit(roots) {
            Some(i) => 0 <= i < roots.len() && !scoped::is_top_level_name(roots[i]@) && forall|k: int|
                0 <= k < i ==> scoped::is_top_level_name((#[trigger] roots[k])@),
            None => forall|k: int|
                0 <= k < roots.len() ==> scoped::is_top_level_name((#[trigger] roots[k])@),
        },
{
    let unfit = scoped::unfit_roots(roots);
    search::lemma_first_meaning(unfit, 0, roots.len() as int);
    assert forall|k: int| 0 <= k < roots.len() implies unfit(k) == !scoped::is_top_level_name(
        (#[trigger] roots[k])@,
    ) by {}
}

/// A name stands twice in a list exactly when it stands in two places, and the one that is
/// told is the smallest of those.
pub proof fn repetitions_are_told_by_the_smallest(texts: Seq<Seq<char>>, text: Seq<char>)
    ensures
        text_order::repeated(texts, text) <==> exists|i: int, j: int|
            0 <= i < j < texts.len() && #[trigger] texts[i] == text && #[trigger] texts[j] == text,
        text_order::first_repeated(texts, text) ==> text_order::repeated(texts, text) && forall|
            other: Seq<char>,
        | #[trigger]
            text_order::repeated(texts, other) ==> !crate::order::text_lt(other, text),
{
    if exists|i: int, j: int|
        0 <= i < j < texts.len() && #[trigger] texts[i] == text && #[trigger] texts[j] == text {
        let (i, j) = choose|i: int, j: int|
            0 <= i < j < texts.len() && #[trigger] texts[i] == text && #[trigger] texts[j] == text;
        let left = texts.subrange(0, j);
        let right = texts.subrange(j, texts.len() as int);
        assert(texts =~= left + right);
        vstd::seq_lib::lemma_multiset_commutative(left, right);
        left.to_multiset_ensures();
        right.to_multiset_ensures();
        assert(left[i] == text && right[0] == text);
        assert(left.contains(text) && right.contains(text));
        assert(texts.to_multiset().count(text) == left.to_multiset().count(text)
            + right.to_multiset().count(text));
    }
    if text_order::repeated(texts, text) {
        texts.to_multiset_ensures();
        assert(texts.contains(text));
        let j = choose|j: int| 0 <= j < texts.len() && texts[j] == text;
        let rest = texts.remove(j);
        assert(texts.to_multiset().remove(text) =~= rest.to_multiset());
        rest.to_multiset_ensures();
        assert(rest.to_multiset().count(text) >= 1);
        assert(rest.contains(text));
        let k = choose|k: int| 0 <= k < rest.len() && rest[k] == text;
        let other = if k < j {
            k
        } else {
            k + 1
        };
        assert(texts[other] == text);
        if other < j {
            assert(texts[other] == text && texts[j] == text);
        } else {
            assert(texts[j] == text && texts[other] == text);
        }
    }
}

/// Whether two texts agree before `place`, where the left one ends or has the smaller
/// character.
pub open spec fn comes_first_at(left: Seq<char>, right: Seq<char>, place: int) -> bool {
    &&& 0 <= place <= left.len()
    &&& place < right.len()
    &&& forall|k: int| 0 <= k < place ==> #[trigger] left[k] == right[k]
    &&& place < left.len() ==> left[place] < right[place]
}

/// Texts are ordered by the first place where they differ.
pub proof fn texts_are_ordered_by_their_first_difference(left: Seq<char>, right: Seq<char>)
    ensures
        crate::order::text_lt(left, right) <==> exists|place: int| #[trigger]
            comes_first_at(left, right, place),
    decreases left.len(),
{
    let (a, b) = (crate::order::codes(left), crate::order::codes(right));
    if left.len() > 0 && right.len() > 0 {
        let (rest, other) = (left.drop_first(), right.drop_first());
        assert(a.drop_first() =~= crate::order::codes(rest));
        assert(b.drop_first() =~= crate::order::codes(other));
        texts_are_ordered_by_their_first_difference(rest, other);
        if left[0] == right[0] {
            if exists|place: int| #[trigger] comes_first_at(rest, other, place) {
                let place = choose|place: int| #[trigger] comes_first_at(rest, other, place);
                assert forall|k: int| 0 <= k < place + 1 implies #[trigger] left[k] == right[k] by {
                    if k > 0 {
                        assert(rest[k - 1] == other[k - 1]);
                    }
                }
                assert(comes_first_at(left, right, place + 1));
            }
            if exists|place: int| #[trigger] comes_first_at(left, right, place) {
                let place = choose|place: int| #[trigger] comes_first_at(left, right, place);
                assert forall|k: int| 0 <= k < place - 1 implies #[trigger] rest[k] == other[k] by {
                    assert(left[k + 1] == right[k + 1]);
                }
                assert(comes_first_at(rest, other, place - 1));
            }
        } else {
            if left[0] < right[0] {
                assert(comes_first_at(left, right, 0));
            } else if exists|place: int| #[trigger] comes_first_at(left, right, place) {
                let place = choose|place: int| #[trigger] comes_first_at(left, right, place);
                assert(place > 0 ==> left[0] == right[0]);
            }
        }
    } else if left.len() == 0 && right.len() > 0 {
        assert(comes_first_at(left, right, 0));
    }
}

/// In an ordered list no text comes before an earlier one, and in a strictly ordered one
/// every text comes before all later ones.
pub proof fn ordered_lists_go_up(list: Seq<Seq<char>>, i: int, j: int)
    requires
        0 <= i < j < list.len(),
    ensures
        text_order::ascending(list) ==> !exists|place: int| #[trigger]
            comes_first_at(list[j], list[i], place),
        text_order::strictly_ascending(list) ==> exists|place: int| #[trigger]
            comes_first_at(list[i], list[j], place),
{
    texts_are_ordered_by_their_first_difference(list[i], list[j]);
    texts_are_ordered_by_their_first_difference(list[j], list[i]);
    if text_order::ascending(list) {
        assert(!crate::order::text_lt(list[j], list[i]));
    }
    if text_order::strictly_ascending(list) {
        assert(crate::order::text_lt(list[i], list[j]));
    }
}

/// The later path that is told of a path is the first that it meets, and none is told exactly
/// when it meets none.
pub proof fn first_later_meetings_are_told(paths: Seq<String>, i: int, told: Option<usize>)
    requires
        0 <= i < paths.len(),
        path_index::is_first_later_overlap(paths, i, told),
    ensures
        match told {
            Some(j) => {
                &&& i < j < paths.len()
                &&& meet(paths[i]@, paths[j as int]@)
                &&& forall|m: int| i < m < j ==> !meet(paths[i]@, (#[trigger] paths[m])@)
            },
            None => forall|m: int| i < m < paths.len() ==> !meet(paths[i]@, (#[trigger] paths[m])@),
        },
{
    assert forall|m: int| i < m < paths.len() implies path_index::overlaps(
        windows_path::components((#[trigger] paths[m])@),
        windows_path::components(paths[i]@),
    ) == meet(paths[i]@, paths[m]@) by {
        lemma_meet(paths[m]@, paths[i]@);
    }
}

/// A lease needs a directory and a name, and is asked for with exactly those. Without a
/// directory that is told, whatever the name is.
pub proof fn leases_need_a_place_and_a_name(
    directory: Seq<char>,
    name: Seq<char>,
    result: Result<ExclusiveFileLeaseRequest, ExclusiveFileLeaseRequestError>,
)
    requires
        lease::is_answered(directory, name, result),
    ensures
        result is Ok <==> directory.len() > 0 && name.len() > 0,
        result matches Ok(request) ==> request.directory() == directory && request.name() == name,
        result matches Err(ExclusiveFileLeaseRequestError::EmptyLockDirectory) <==> directory.len()
            == 0,
        result matches Err(ExclusiveFileLeaseRequestError::EmptyIdentity) <==> directory.len() > 0
            && name.len() == 0,
{
}

/// A source directory may become the whole candidate or a place in it, bytes only a place in
/// it. What is refused is told by its path, and a missing source before a wrong place.
pub proof fn parts_of_a_candidate_have_a_place_in_it(
    source: String,
    place: String,
    bytes: Seq<u8>,
    mapped: Result<DirectorySourceMapping, DirectoryStageRequestError>,
    overlaid: Result<DirectoryFileOverlay, DirectoryStageRequestError>,
)
    requires
        candidate::is_mapped(source, place, mapped),
        candidate::is_overlaid(place, bytes, overlaid),
    ensures
        overlaid is Ok <==> candidate::is_stage_relative(place@),
        overlaid matches Ok(overlay) ==> overlay.file() == place@ && overlay.content() == bytes,
        overlaid matches Err(error) ==> (error matches DirectoryStageRequestError::InvalidRelativePath {
            path,
        } && path == place),
        mapped is Ok <==> source@.len() > 0 && (place@.len() == 0 || overlaid is Ok),
        mapped matches Ok(mapping) ==> mapping.source() == source@ && mapping.target() == place@,
        mapped matches Err(DirectoryStageRequestError::EmptySourceDirectory) <==> source@.len() == 0,
        mapped matches Err(error) ==> (source@.len() > 0 ==> (error
            matches DirectoryStageRequestError::InvalidRelativePath { path } && path == place)),
{
}

/// A request speaks of the places of its parts, in their order.
pub proof fn parts_are_known_by_their_places(
    mappings: Seq<DirectorySourceMapping>,
    overlays: Seq<DirectoryFileOverlay>,
    paths: Seq<String>,
    i: int,
)
    ensures
        candidate::targets_of(mappings).len() == mappings.len(),
        candidate::files_of(overlays).len() == overlays.len(),
        candidate::texts_of(paths).len() == paths.len(),
        0 <= i < mappings.len() ==> candidate::targets_of(mappings)[i] == mappings[i].target(),
        0 <= i < overlays.len() ==> candidate::files_of(overlays)[i] == overlays[i].file(),
        0 <= i < paths.len() ==> candidate::texts_of(paths)[i] == paths[i]@,
{
}

/// A tree needs a directory and a name of its own that is a path of names. Without a
/// directory that is told, whatever the name is.
pub proof fn trees_need_a_place_and_a_name(
    place: Seq<char>,
    name: String,
    result: Result<DirectoryTreeRoot, DirectoryTreeFingerprintRequestError>,
)
    requires
        fingerprint::is_tree(place, name, result),
    ensures
        result is Ok <==> place.len() > 0 && name@.len() > 0 && windows_path::has_only_names(name@),
        result matches Ok(tree) ==> tree.physical() == place && tree.logical() == name@,
        result matches Err(DirectoryTreeFingerprintRequestError::EmptyPhysicalRoot) <==> place.len()
            == 0,
        result matches Err(error) ==> (place.len() > 0 ==> (error
            matches DirectoryTreeFingerprintRequestError::InvalidLogicalRoot { path } && path == name)),
{
}

/// A fingerprint is asked for all the trees that were given, in their order, exactly when
/// there are some and no two of their names meet. A refusal names two that do.
pub proof fn fingerprints_are_of_separate_trees(
    roots: Seq<DirectoryTreeRoot>,
    result: Result<DirectoryTreeFingerprintRequest, DirectoryTreeFingerprintRequestError>,
    i: int,
    j: int,
)
    requires
        fingerprint::is_answered(roots, result),
    ensures
        roots.len() == 0 <==> (result matches Err(DirectoryTreeFingerprintRequestError::EmptyRoots)),
        result matches Ok(request) ==> request.trees() == roots,
        result is Ok && 0 <= i < j < roots.len() ==> !agree(
            windows_path::components(roots[i].logical()),
            windows_path::components(roots[j].logical()),
        ),
        result matches Err(error) ==> (roots.len() > 0 ==> (error
            matches DirectoryTreeFingerprintRequestError::OverlappingLogicalRoots { first, second }
            && exists|a: int, b: int|
            0 <= a < b < roots.len() && first@ == (#[trigger] roots[a]).logical() && second@
                == (#[trigger] roots[b]).logical() && agree(
                windows_path::components(first@),
                windows_path::components(second@),
            ))),
{
    match result {
        Ok(_) => {
            if 0 <= i < j < roots.len() {
                fingerprint::accepted_roots_are_disjoint(roots, i, j);
                let left = windows_path::components(roots[j].logical());
                let right = windows_path::components(roots[i].logical());
                overlaps_are_common_beginnings(left, right);
            }
        },
        Err(_) => {
            if roots.len() > 0 {
                let some = fingerprint::overlapping_some(roots);
                search::lemma_first_meaning(some, 0, roots.len() as int);
                let a = fingerprint::first_overlapping(roots)->0;
                let after = fingerprint::overlapping_after(roots, a);
                search::lemma_first_meaning(after, a + 1, roots.len() as int);
                let b = fingerprint::later_overlap(roots, a)->0;
                assert(after(b));
                overlaps_are_common_beginnings(
                    windows_path::components(roots[b].logical()),
                    windows_path::components(roots[a].logical()),
                );
                assert(0 <= a < b < roots.len());
            }
        },
    }
}

/// A scope holds exactly the directories that were given. It is accepted exactly when there
/// are some, each is one name, and none stands twice.
pub proof fn scopes_hold_what_was_declared(
    roots: Seq<String>,
    result: Result<ScopedDirectoryScope, ScopedDirectoryScopeError>,
    text: Seq<char>,
)
    requires
        scoped::is_scoped(roots, result),
    ensures
        result matches Ok(scope) ==> ({
            &&& scope.declared().len() == roots.len()
            &&& scope.declared().contains(text) <==> exists|i: int|
                0 <= i < roots.len() && (#[trigger] roots[i])@ == text
        }),
        roots.len() == 0 <==> (result matches Err(ScopedDirectoryScopeError::Empty)),
        result is Ok <==> ({
            &&& roots.len() > 0
            &&& forall|i: int|
                0 <= i < roots.len() ==> scoped::is_top_level_name((#[trigger] roots[i])@)
            &&& forall|i: int, j: int|
                0 <= i < j < roots.len() ==> (#[trigger] roots[i])@ != (#[trigger] roots[j])@
        }),
        result matches Err(ScopedDirectoryScopeError::InvalidRoot { root }) ==> roots.contains(root)
            && !scoped::is_top_level_name(root@),
        result matches Err(ScopedDirectoryScopeError::DuplicateRoot { root }) ==> exists|
            i: int,
            j: int,
        |
            0 <= i < j < roots.len() && (#[trigger] roots[i])@ == root@ && (#[trigger] roots[j])@
                == root@,
{
    let texts = text_order::texts(roots);
    assert(texts.len() == roots.len());
    assert(forall|i: int| 0 <= i < roots.len() ==> #[trigger] texts[i] == roots[i]@);
    scopes_are_refused_for_their_first_misfit(roots);
    search::lemma_first_meaning(scoped::unfit_roots(roots), 0, roots.len() as int);
    assert forall|name: Seq<char>| #[trigger] text_order::repeated(texts, name) implies exists|
        i: int,
        j: int,
    |
        0 <= i < j < roots.len() && (#[trigger] roots[i])@ == name && (#[trigger] roots[j])@ == name by {
        repetitions_are_told_by_the_smallest(texts, name);
        let (i, j) = choose|i: int, j: int|
            0 <= i < j < texts.len() && #[trigger] texts[i] == name && #[trigger] texts[j] == name;
        assert(roots[i]@ == name && roots[j]@ == name);
    }
    assert forall|i: int, j: int|
        0 <= i < j < roots.len() && (#[trigger] roots[i])@ == (#[trigger] roots[j])@ implies text_order::repeated(
        texts,
        roots[i]@,
    ) by {
        repetitions_are_told_by_the_smallest(texts, roots[i]@);
        assert(texts[i] == roots[i]@ && texts[j] == roots[i]@);
    }
    match result {
        Ok(scope) => {
            let declared = scope.declared();
            declared.to_multiset_ensures();
            texts.to_multiset_ensures();
            vstd::seq_lib::to_multiset_len(declared);
            vstd::seq_lib::to_multiset_len(texts);
            assert(declared.contains(text) <==> declared.to_multiset().count(text) > 0);
            assert(texts.contains(text) <==> texts.to_multiset().count(text) > 0);
            if exists|i: int| 0 <= i < roots.len() && (#[trigger] roots[i])@ == text {
                let i = choose|i: int| 0 <= i < roots.len() && (#[trigger] roots[i])@ == text;
                assert(texts[i] == text);
            }
            if texts.contains(text) {
                let i = choose|i: int| 0 <= i < texts.len() && texts[i] == text;
                assert(roots[i]@ == text);
            }
        },
        Err(ScopedDirectoryScopeError::DuplicateRoot { root }) => {
            repetitions_are_told_by_the_smallest(texts, root@);
        },
        Err(_) => {},
    }
}

/// A path may be edited exactly when its first name is a declared directory; it is itself
/// such a directory when it has no further name.
pub proof fn edits_stay_in_declared_directories(scope: ScopedDirectoryScope, path: ScopedDirectoryPath)
    ensures
        scope.covers(path) <==> exists|i: int|
            0 <= i < scope.declared().len() && #[trigger] scope.declared()[i] == path.top(),
        scope.has_root(path) <==> scope.covers(path) && path.below() == Seq::<Seq<char>>::empty(),
{
    if path.below().len() == 0 {
        assert(path.below() =~= Seq::<Seq<char>>::empty());
    }
}

} // verus!
