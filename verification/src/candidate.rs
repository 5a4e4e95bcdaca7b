//! Staging requests for a directory candidate: scope checks, overlays and the
//! ownership token of a prepared candidate.

use vstd::prelude::*;
use vstd::string::*;
use crate::path_index;
use crate::path_index::{overlapping_later_paths, RelativePathIndex};
use crate::search;
use crate::windows_path;
use crate::windows_path::{anchored, has_dots_segment};

verus! {

/// Whether `path` may name a place inside a candidate: not empty, not anchored, and
/// without `.` or `..` segments.
pub open spec fn is_stage_relative(path: Seq<char>) -> bool {
    &&& path.len() > 0
    &&& !windows_path::is_anchored(path)
    &&& !windows_path::segments(path).contains(windows_path::current_directory())
    &&& !windows_path::segments(path).contains(windows_path::parent_directory())
}

/// A path inside a candidate walks through names only; so does the candidate root.
pub proof fn lemma_stage_relative_has_only_names(path: Seq<char>)
    requires
        path.len() == 0 || is_stage_relative(path),
    ensures
        windows_path::has_only_names(path),
{
    windows_path::lemma_segments_nonempty(path);
    let all = windows_path::segments(path);
    if path.len() == 0 {
        assert(all =~= seq![Seq::<char>::empty()]);
        assert(all[0].len() == 0);
    } else {
        assert(all.contains(all[0]));
    }
}

/// A contract violation found before a stage request reaches the file system.
#[derive(Clone, Debug, PartialEq, Eq)]
pub enum DirectoryStageRequestError {
    EmptyTargetRoot,
    EmptySourceDirectory,
    EmptySourceMappings,
    InvalidRelativePath { path: String },
    OverlappingSourceTargets { first: String, second: String },
    OverlappingOverlays { first: String, second: String },
    OverlappingEmptyDirectories { first: String, second: String },
    OverlayOverlapsSourceTarget { overlay: String, source_target: String },
    EmptyDirectoryOverlapsSourceTarget { empty_directory: String, source_target: String },
    EmptyDirectoryOverlapsOverlay { empty_directory: String, overlay: String },
}

impl DirectoryStageRequestError {
    /// The text of the error.
    pub open spec fn text(&self) -> Seq<char> {
        match self {
            Self::EmptyTargetRoot => "目录发布目标根目录不能为空"@,
            Self::EmptySourceDirectory => "目录发布来源目录不能为空"@,
            Self::EmptySourceMappings => "目录发布至少需要一棵来源子树"@,
            Self::InvalidRelativePath { path } => "目录发布路径不是安全相对路径："@ + path@,
            Self::OverlappingSourceTargets { first, second } => "目录发布的来源目标子树相互重叠："@
                + first@ + " 与 "@ + second@,
            Self::OverlappingOverlays { first, second } => "目录发布的文件覆盖相互重叠："@ + first@
                + " 与 "@ + second@,
            Self::OverlappingEmptyDirectories { first, second } => "目录发布的空目录相互重叠："@
                + first@ + " 与 "@ + second@,
            Self::OverlayOverlapsSourceTarget { overlay, source_target } => "目录发布的文件覆盖 "@
                + overlay@ + " 与来源目标子树 "@ + source_target@ + " 冲突"@,
            Self::EmptyDirectoryOverlapsSourceTarget {
                empty_directory,
                source_target,
            } => "目录发布的空目录 "@ + empty_directory@ + " 与来源目标子树 "@ + source_target@
                + " 重叠"@,
            Self::EmptyDirectoryOverlapsOverlay { empty_directory, overlay } => "目录发布的空目录 "@
                + empty_directory@ + " 与文件覆盖 "@ + overlay@ + " 重叠"@,
        }
    }

    /// Renders the error.
    pub fn message(&self) -> (message: String)
        ensures
            message@ == self.text(),
    {
        match self {
            Self::EmptyTargetRoot => String::from_str("目录发布目标根目录不能为空"),
            Self::EmptySourceDirectory => String::from_str("目录发布来源目录不能为空"),
            Self::EmptySourceMappings => String::from_str("目录发布至少需要一棵来源子树"),
            Self::InvalidRelativePath { path } => String::from_str(
                "目录发布路径不是安全相对路径：",
            ).concat(path.as_str()),
            Self::OverlappingSourceTargets { first, second } => String::from_str(
                "目录发布的来源目标子树相互重叠：",
            ).concat(first.as_str()).concat(" 与 ").concat(second.as_str()),
            Self::OverlappingOverlays { first, second } => String::from_str(
                "目录发布的文件覆盖相互重叠：",
            ).concat(first.as_str()).concat(" 与 ").concat(second.as_str()),
            Self::OverlappingEmptyDirectories { first, second } => String::from_str(
                "目录发布的空目录相互重叠：",
            ).concat(first.as_str()).concat(" 与 ").concat(second.as_str()),
            Self::OverlayOverlapsSourceTarget { overlay, source_target } => String::from_str(
                "目录发布的文件覆盖 ",
            ).concat(overlay.as_str()).concat(" 与来源目标子树 ").concat(
                source_target.as_str(),
            ).concat(" 冲突"),
            Self::EmptyDirectoryOverlapsSourceTarget {
                empty_directory,
                source_target,
            } => String::from_str("目录发布的空目录 ").concat(empty_directory.as_str()).concat(
                " 与来源目标子树 ",
            ).concat(source_target.as_str()).concat(" 重叠"),
            Self::EmptyDirectoryOverlapsOverlay { empty_directory, overlay } => String::from_str(
                "目录发布的空目录 ",
            ).concat(empty_directory.as_str()).concat(" 与文件覆盖 ").concat(overlay.as_str()).concat(
                " 重叠",
            ),
        }
    }
}

/// Accepts `path` exactly when it may name a place inside a candidate.
pub fn validate_stage_relative_path(path: &String) -> (result: Result<
    (),
    DirectoryStageRequestError,
>)
    ensures
        result is Ok <==> is_stage_relative(path@),
        result matches Err(error) ==> error == (DirectoryStageRequestError::InvalidRelativePath {
            path: *path,
        }),
{
    let text = path.as_str();
    if text.unicode_len() == 0 || has_dots_segment(text, 1) || has_dots_segment(text, 2)
        || anchored(text) {
        return Err(DirectoryStageRequestError::InvalidRelativePath { path: path.clone() });
    }
    Ok(())
}

/// A frozen source tree and its place in the candidate.
#[derive(Debug, PartialEq, Eq)]
pub struct DirectorySourceMapping {
    source_directory: String,
    relative_target: String,
}

/// Whether `result` answers the wish to map a source directory to a place in the candidate.
pub open spec fn is_mapped(
    source_directory: String,
    relative_target: String,
    result: Result<DirectorySourceMapping, DirectoryStageRequestError>,
) -> bool {
    match result {
        Ok(mapping) => {
            &&& source_directory@.len() > 0
            &&& relative_target@.len() == 0 || is_stage_relative(relative_target@)
            &&& mapping.source() == source_directory@
            &&& mapping.target() == relative_target@
        },
        Err(error) => if source_directory@.len() == 0 {
            error == DirectoryStageRequestError::EmptySourceDirectory
        } else {
            &&& relative_target@.len() > 0 && !is_stage_relative(relative_target@)
            &&& error == (DirectoryStageRequestError::InvalidRelativePath { path: relative_target })
        },
    }
}

impl DirectorySourceMapping {
    #[verifier::type_invariant]
    spec fn is_valid(&self) -> bool {
        &&& self.source_directory@.len() > 0
        &&& self.relative_target@.len() == 0 || is_stage_relative(self.relative_target@)
    }

    /// The source directory's path.
    pub closed spec fn source(&self) -> Seq<char> {
        self.source_directory@
    }

    /// The place in the candidate; empty for the candidate root.
    pub closed spec fn target(&self) -> Seq<char> {
        self.relative_target@
    }

    /// Maps a source directory to a place in the candidate. An empty place makes the
    /// source the candidate root.
    pub fn new(source_directory: String, relative_target: String) -> (result: Result<
        Self,
        DirectoryStageRequestError,
    >)
        ensures
            is_mapped(source_directory, relative_target, result),
    {
        if source_directory.as_str().unicode_len() == 0 {
            return Err(DirectoryStageRequestError::EmptySourceDirectory);
        }
        if relative_target.as_str().unicode_len() != 0 {
            match validate_stage_relative_path(&relative_target) {
                Ok(()) => {},
                Err(error) => {
                    return Err(error);
                },
            }
        }
        Ok(DirectorySourceMapping { source_directory, relative_target })
    }

    pub fn source_directory(&self) -> (path: &String)
        ensures
            path@ == self.source(),
    {
        &self.source_directory
    }

    pub fn relative_target(&self) -> (path: &String)
        ensures
            path@ == self.target(),
            path@.len() == 0 || is_stage_relative(path@),
    {
        proof {
            use_type_invariant(self);
        }
        &self.relative_target
    }
}

impl Clone for DirectorySourceMapping {
    fn clone(&self) -> (copy: Self)
        ensures
            copy.source() == self.source(),
            copy.target() == self.target(),
    {
        proof {
            use_type_invariant(self);
        }
        DirectorySourceMapping {
            source_directory: self.source_directory.clone(),
            relative_target: self.relative_target.clone(),
        }
    }
}

/// Bytes that replace or create one file of the candidate.
#[derive(Debug, PartialEq, Eq)]
pub struct DirectoryFileOverlay {
    relative_file: String,
    bytes: Vec<u8>,
}

/// Whether `result` answers the wish to put bytes into a file of the candidate.
pub open spec fn is_overlaid(
    relative_file: String,
    bytes: Seq<u8>,
    result: Result<DirectoryFileOverlay, DirectoryStageRequestError>,
) -> bool {
    match result {
        Ok(overlay) => {
            &&& is_stage_relative(relative_file@)
            &&& overlay.file() == relative_file@
            &&& overlay.content() == bytes
        },
        Err(error) => {
            &&& !is_stage_relative(relative_file@)
            &&& error == (DirectoryStageRequestError::InvalidRelativePath { path: relative_file })
        },
    }
}

impl DirectoryFileOverlay {
    #[verifier::type_invariant]
    spec fn is_valid(&self) -> bool {
        is_stage_relative(self.relative_file@)
    }

    /// The file's place in the candidate.
    pub closed spec fn file(&self) -> Seq<char> {
        self.relative_file@
    }

    /// The file's content.
    pub closed spec fn content(&self) -> Seq<u8> {
        self.bytes@
    }

    pub fn new(relative_file: String, bytes: Vec<u8>) -> (result: Result<
        Self,
        DirectoryStageRequestError,
    >)
        ensures
            is_overlaid(relative_file, bytes@, result),
    {
        match validate_stage_relative_path(&relative_file) {
            Ok(()) => Ok(DirectoryFileOverlay { relative_file, bytes }),
            Err(error) => Err(error),
        }
    }

    pub fn relative_file(&self) -> (path: &String)
        ensures
            path@ == self.file(),
            is_stage_relative(path@),
    {
        proof {
            use_type_invariant(self);
        }
        &self.relative_file
    }

    pub fn bytes(&self) -> (bytes: &[u8])
        ensures
            bytes@ == self.content(),
    {
        self.bytes.as_slice()
    }
}

impl Clone for DirectoryFileOverlay {
    fn clone(&self) -> (copy: Self)
        ensures
            copy.file() == self.file(),
            copy.content() == self.content(),
    {
        proof {
            use_type_invariant(self);
        }
        let bytes = self.bytes.clone();
        assert(bytes@ =~= self.bytes@);
        DirectoryFileOverlay { relative_file: self.relative_file.clone(), bytes }
    }
}

/// What may be done with a prepared candidate.
#[derive(Clone, Copy, Debug, PartialEq, Eq, Structural)]
pub enum DirectoryPublishIntent {
    /// The target must not exist yet; at most one concurrent publisher wins.
    CreateNew,
    /// The target must be an existing directory and is replaced as a whole.
    ReplaceExisting,
}

/// The first rule that a stage request breaks, in the order in which they are checked.
pub ghost enum StageFault {
    EmptyTargetRoot,
    EmptySourceMappings,
    SourceTargets { first: int, second: int },
    Overlays { first: int, second: int },
    OverlayAndSource { overlay: int, mapping: int },
    InvalidEmptyDirectory { index: int },
    EmptyDirectories { first: int, second: int },
    EmptyDirectoryAndOverlay { directory: int, overlay: int },
    EmptyDirectoryAndSource { directory: int, mapping: int },
}

/// Whether the places of two paths overlap.
pub open spec fn path_overlap(left: Seq<char>, right: Seq<char>) -> bool {
    path_index::overlaps(windows_path::components(left), windows_path::components(right))
}

/// The first of `paths`, from position `from` on, that overlaps `path`.
pub open spec fn first_overlap(paths: Seq<Seq<char>>, from: int, path: Seq<char>) -> Option<int> {
    search::first_such(|j: int| path_overlap(paths[j], path), from, paths.len() as int)
}

/// Whether one of `paths` is a strict ancestor of `path`.
pub open spec fn lies_inside(paths: Seq<Seq<char>>, path: Seq<char>) -> bool {
    exists|j: int|
        0 <= j < paths.len() && path_index::is_strict_ancestor(
            windows_path::components(#[trigger] paths[j]),
            windows_path::components(path),
        )
}

pub open spec fn overlay_fault(
    sources: Seq<Seq<char>>,
    overlays: Seq<Seq<char>>,
    i: int,
) -> Option<StageFault> {
    match first_overlap(overlays, i + 1, overlays[i]) {
        Some(second) => Some(StageFault::Overlays { first: i, second }),
        None => if lies_inside(sources, overlays[i]) {
            None
        } else {
            match first_overlap(sources, 0, overlays[i]) {
                Some(mapping) => Some(StageFault::OverlayAndSource { overlay: i, mapping }),
                None => None,
            }
        },
    }
}

pub open spec fn empty_directory_fault(
    sources: Seq<Seq<char>>,
    overlays: Seq<Seq<char>>,
    directories: Seq<Seq<char>>,
    i: int,
) -> Option<StageFault> {
    match first_overlap(directories, i + 1, directories[i]) {
        Some(second) => Some(StageFault::EmptyDirectories { first: i, second }),
        None => match first_overlap(overlays, 0, directories[i]) {
            Some(overlay) => Some(StageFault::EmptyDirectoryAndOverlay { directory: i, overlay }),
            None => match first_overlap(sources, 0, directories[i]) {
                Some(mapping) => Some(
                    StageFault::EmptyDirectoryAndSource { directory: i, mapping },
                ),
                None => None,
            },
        },
    }
}

/// The fault of a request: earlier inputs are reported before later ones, and within one
/// input a clash with its own kind comes first.
pub open spec fn stage_fault(
    target_root: Seq<char>,
    sources: Seq<Seq<char>>,
    overlays: Seq<Seq<char>>,
    directories: Seq<Seq<char>>,
) -> Option<StageFault> {
    let source_clash = search::first_such(
        |i: int| first_overlap(sources, i + 1, sources[i]) is Some,
        0,
        sources.len() as int,
    );
    let overlay_clash = search::first_such(
        |i: int| overlay_fault(sources, overlays, i) is Some,
        0,
        overlays.len() as int,
    );
    let invalid = search::first_such(
        |i: int| !is_stage_relative(directories[i]),
        0,
        directories.len() as int,
    );
    let directory_clash = search::first_such(
        |i: int| empty_directory_fault(sources, overlays, directories, i) is Some,
        0,
        directories.len() as int,
    );
    if target_root.len() == 0 {
        Some(StageFault::EmptyTargetRoot)
    } else if sources.len() == 0 {
        Some(StageFault::EmptySourceMappings)
    } else if source_clash is Some {
        let first = source_clash->0;
        Some(
            StageFault::SourceTargets {
                first,
                second: first_overlap(sources, first + 1, sources[first])->0,
            },
        )
    } else if overlay_clash is Some {
        overlay_fault(sources, overlays, overlay_clash->0)
    } else if invalid is Some {
        Some(StageFault::InvalidEmptyDirectory { index: invalid->0 })
    } else if directory_clash is Some {
        empty_directory_fault(sources, overlays, directories, directory_clash->0)
    } else {
        None
    }
}

/// Whether `error` reports `fault` with the paths it concerns.
pub open spec fn reports_fault(
    error: DirectoryStageRequestError,
    fault: StageFault,
    sources: Seq<Seq<char>>,
    overlays: Seq<Seq<char>>,
    directories: Seq<Seq<char>>,
) -> bool {
    match fault {
        StageFault::EmptyTargetRoot => error == DirectoryStageRequestError::EmptyTargetRoot,
        StageFault::EmptySourceMappings => error == DirectoryStageRequestError::EmptySourceMappings,
        StageFault::SourceTargets { first: i, second: j } => error matches DirectoryStageRequestError::OverlappingSourceTargets {
            first,
            second,
        } && first@ == sources[i] && second@ == sources[j],
        StageFault::Overlays { first: i, second: j } => error matches DirectoryStageRequestError::OverlappingOverlays {
            first,
            second,
        } && first@ == overlays[i] && second@ == overlays[j],
        StageFault::OverlayAndSource { overlay: i, mapping: j } => error matches DirectoryStageRequestError::OverlayOverlapsSourceTarget {
            overlay,
            source_target,
        } && overlay@ == overlays[i] && source_target@ == sources[j],
        StageFault::InvalidEmptyDirectory { index } => error matches DirectoryStageRequestError::InvalidRelativePath {
            path,
        } && path@ == directories[index],
        StageFault::EmptyDirectories { first: i, second: j } => error matches DirectoryStageRequestError::OverlappingEmptyDirectories {
            first,
            second,
        } && first@ == directories[i] && second@ == directories[j],
        StageFault::EmptyDirectoryAndOverlay { directory: i, overlay: j } => error matches DirectoryStageRequestError::EmptyDirectoryOverlapsOverlay {
            empty_directory,
            overlay,
        } && empty_directory@ == directories[i] && overlay@ == overlays[j],
        StageFault::EmptyDirectoryAndSource { directory: i, mapping: j } => error matches DirectoryStageRequestError::EmptyDirectoryOverlapsSourceTarget {
            empty_directory,
            source_target,
        } && empty_directory@ == directories[i] && source_target@ == sources[j],
    }
}

pub open spec fn targets_of(mappings: Seq<DirectorySourceMapping>) -> Seq<Seq<char>> {
    mappings.map_values(|mapping: DirectorySourceMapping| mapping.target())
}

pub open spec fn files_of(overlays: Seq<DirectoryFileOverlay>) -> Seq<Seq<char>> {
    overlays.map_values(|overlay: DirectoryFileOverlay| overlay.file())
}

pub open spec fn texts_of(paths: Seq<String>) -> Seq<Seq<char>> {
    paths.map_values(|path: String| path@)
}

/// A checked request to prepare a candidate for one target.
#[derive(Debug, PartialEq, Eq)]
pub struct DirectoryStageRequest {
    target_root: String,
    publish_intent: DirectoryPublishIntent,
    source_mappings: Vec<DirectorySourceMapping>,
    overlays: Vec<DirectoryFileOverlay>,
    empty_directories: Vec<String>,
}

/// The index of `paths` answers with the first of them that overlaps `path`.
proof fn lemma_index_finds_first(paths: Seq<String>, path: Seq<char>)
    requires
        paths.len() <= usize::MAX,
    ensures
        match path_index::least_overlapping(
            path_index::declarations(paths),
            windows_path::components(path),
        ) {
            Some(j) => first_overlap(texts_of(paths), 0, path) == Some(j as int),
            None => first_overlap(texts_of(paths), 0, path) is None,
        },
{
    let declared = path_index::declarations(paths);
    let wanted = path_index::overlapping_with(windows_path::components(path));
    let holds = |j: int| path_overlap(texts_of(paths)[j], path);
    path_index::lemma_least_meaning(declared, wanted);
    match path_index::least(declared, wanted) {
        Some(ordinal) => {
            let i = choose|i: int|
                0 <= i < declared.len() && wanted((#[trigger] declared[i]).0) && declared[i].1 == ordinal;
            assert(ordinal == i as usize);
            assert(holds(i));
            assert forall|k: int| 0 <= k < i implies !#[trigger] holds(k) by {
                assert(wanted(declared[k].0) ==> ordinal <= declared[k].1);
            }
            search::lemma_first_found(holds, 0, paths.len() as int, i);
        },
        None => {
            assert forall|k: int| 0 <= k < paths.len() implies !#[trigger] holds(k) by {
                assert(!wanted(declared[k].0));
            }
            search::lemma_first_absent(holds, 0, paths.len() as int);
        },
    }
}

/// The index of `paths` has an ancestor of `path` exactly when `path` lies inside one of them.
proof fn lemma_index_finds_ancestor(paths: Seq<String>, path: Seq<char>)
    ensures
        (path_index::least_strict_ancestor(
            path_index::declarations(paths),
            windows_path::components(path),
        ) is Some) == lies_inside(texts_of(paths), path),
{
    let declared = path_index::declarations(paths);
    let wanted = path_index::strictly_above(windows_path::components(path));
    path_index::lemma_least_meaning(declared, wanted);
    match path_index::least(declared, wanted) {
        Some(ordinal) => {
            let i = choose|i: int|
                0 <= i < declared.len() && wanted((#[trigger] declared[i]).0) && declared[i].1 == ordinal;
            assert(path_index::is_strict_ancestor(
                windows_path::components(texts_of(paths)[i]),
                windows_path::components(path),
            ));
        },
        None => {
            assert forall|j: int| 0 <= j < paths.len() implies !path_index::is_strict_ancestor(
                windows_path::components(#[trigger] texts_of(paths)[j]),
                windows_path::components(path),
            ) by {
                assert(!wanted(declared[j].0));
            }
        },
    }
}

/// A later overlap found by position is the first overlap in the rest of the list.
proof fn lemma_later_overlap(paths: Seq<String>, i: int, found: Option<usize>)
    requires
        0 <= i < paths.len(),
        path_index::is_first_later_overlap(paths, i, found),
    ensures
        match found {
            Some(j) => i < j < paths.len() && first_overlap(texts_of(paths), i + 1, texts_of(paths)[i])
                == Some(j as int),
            None => first_overlap(texts_of(paths), i + 1, texts_of(paths)[i]) is None,
        },
{
    let texts = texts_of(paths);
    let holds = |j: int| path_overlap(texts[j], texts[i]);
    match found {
        Some(j) => {
            assert(holds(j as int));
            assert forall|k: int| i + 1 <= k < j implies !#[trigger] holds(k) by {
                assert(texts[k] == paths[k]@);
            }
            search::lemma_first_found(holds, i + 1, paths.len() as int, j as int);
        },
        None => {
            assert forall|k: int| i + 1 <= k < paths.len() implies !#[trigger] holds(k) by {
                assert(texts[k] == paths[k]@);
            }
            search::lemma_first_absent(holds, i + 1, paths.len() as int);
        },
    }
}

fn target_texts(mappings: &Vec<DirectorySourceMapping>) -> (paths: Vec<String>)
    ensures
        texts_of(paths@) == targets_of(mappings@),
        forall|i: int| 0 <= i < paths.len() ==> windows_path::has_only_names((#[trigger] paths[i])@),
{
    let mut paths: Vec<String> = Vec::new();
    let mut i: usize = 0;
    while i < mappings.len()
        invariant
            i <= mappings.len(),
            texts_of(paths@) == targets_of(mappings@).take(i as int),
            forall|k: int| 0 <= k < paths.len() ==> windows_path::has_only_names((#[trigger] paths[k])@),
        decreases mappings.len() - i,
    {
        let target = mappings[i].relative_target();
        proof {
            lemma_stage_relative_has_only_names(target@);
        }
        let ghost before = paths@;
        paths.push(target.clone());
        proof {
            assert(texts_of(paths@) =~= texts_of(before).push(target@));
            assert(targets_of(mappings@).take(i + 1) =~= targets_of(mappings@).take(i as int).push(
                target@,
            ));
        }
        i += 1;
    }
    assert(targets_of(mappings@).take(mappings.len() as int) =~= targets_of(mappings@));
    paths
}

fn overlay_texts(overlays: &Vec<DirectoryFileOverlay>) -> (paths: Vec<String>)
    ensures
        texts_of(paths@) == files_of(overlays@),
        forall|i: int| 0 <= i < paths.len() ==> windows_path::has_only_names((#[trigger] paths[i])@),
{
    let mut paths: Vec<String> = Vec::new();
    let mut i: usize = 0;
    while i < overlays.len()
        invariant
            i <= overlays.len(),
            texts_of(paths@) == files_of(overlays@).take(i as int),
            forall|k: int| 0 <= k < paths.len() ==> windows_path::has_only_names((#[trigger] paths[k])@),
        decreases overlays.len() - i,
    {
        let file = overlays[i].relative_file();
        proof {
            lemma_stage_relative_has_only_names(file@);
        }
        let ghost before = paths@;
        paths.push(file.clone());
        proof {
            assert(texts_of(paths@) =~= texts_of(before).push(file@));
            assert(files_of(overlays@).take(i + 1) =~= files_of(overlays@).take(i as int).push(file@));
        }
        i += 1;
    }
    assert(files_of(overlays@).take(overlays.len() as int) =~= files_of(overlays@));
    paths
}

impl DirectoryStageRequest {
    pub closed spec fn target_text(&self) -> Seq<char> {
        self.target_root@
    }

    pub closed spec fn intent(&self) -> DirectoryPublishIntent {
        self.publish_intent
    }

    pub closed spec fn mappings(&self) -> Seq<DirectorySourceMapping> {
        self.source_mappings@
    }

    pub closed spec fn files(&self) -> Seq<DirectoryFileOverlay> {
        self.overlays@
    }

    pub closed spec fn directories(&self) -> Seq<String> {
        self.empty_directories@
    }

    /// Every request satisfies all scope rules.
    #[verifier::type_invariant]
    spec fn is_valid(&self) -> bool {
        stage_fault(
            self.target_root@,
            targets_of(self.source_mappings@),
            files_of(self.overlays@),
            texts_of(self.empty_directories@),
        ) is None
    }

    /// Accepts a request without faults; otherwise reports its first fault.
    pub fn new(
        target_root: String,
        publish_intent: DirectoryPublishIntent,
        source_mappings: Vec<DirectorySourceMapping>,
        overlays: Vec<DirectoryFileOverlay>,
        empty_directories: Vec<String>,
    ) -> (result: Result<Self, DirectoryStageRequestError>)
        ensures
            ({
                let sources = targets_of(source_mappings@);
                let files = files_of(overlays@);
                let directories = texts_of(empty_directories@);
                match stage_fault(target_root@, sources, files, directories) {
                    None => result matches Ok(request) && {
                        &&& request.target_text() == target_root@
                        &&& request.intent() == publish_intent
                        &&& request.mappings() == source_mappings@
                        &&& request.files() == overlays@
                        &&& request.directories() == empty_directories@
                    },
                    Some(fault) => result matches Err(error) && reports_fault(
                        error,
                        fault,
                        sources,
                        files,
                        directories,
                    ),
                }
            }),
    {
        let ghost sources = targets_of(source_mappings@);
        let ghost files = files_of(overlays@);
        let ghost directories = texts_of(empty_directories@);
        if target_root.as_str().unicode_len() == 0 {
            return Err(DirectoryStageRequestError::EmptyTargetRoot);
        }
        if source_mappings.len() == 0 {
            return Err(DirectoryStageRequestError::EmptySourceMappings);
        }
        let source_paths = target_texts(&source_mappings);
        let source_overlaps = overlapping_later_paths(&source_paths);
        let ghost source_clash = |i: int| first_overlap(sources, i + 1, sources[i]) is Some;
        let mut first: usize = 0;
        while first < source_paths.len()
            invariant
                first <= source_paths.len(),
                texts_of(source_paths@) == sources,
                sources.len() == source_paths.len(),
                sources.len() > 0,
                target_root@.len() > 0,
                files == files_of(overlays@),
                directories == texts_of(empty_directories@),
                sources == targets_of(source_mappings@),
                source_overlaps.len() == source_paths.len(),
                source_clash == (|i: int| first_overlap(sources, i + 1, sources[i]) is Some),
                forall|i: int|
                    0 <= i < source_paths.len() ==> path_index::is_first_later_overlap(
                        source_paths@,
                        i,
                        #[trigger] source_overlaps[i],
                    ),
                forall|k: int| 0 <= k < first ==> !#[trigger] source_clash(k),
            decreases source_paths.len() - first,
        {
            proof {
                lemma_later_overlap(source_paths@, first as int, source_overlaps[first as int]);
            }
            if let Some(second) = source_overlaps[first] {
                proof {
                    assert(source_clash(first as int));
                    search::lemma_first_found(source_clash, 0, sources.len() as int, first as int);
                }
                return Err(
                    DirectoryStageRequestError::OverlappingSourceTargets {
                        first: source_paths[first].clone(),
                        second: source_paths[second].clone(),
                    },
                );
            }
            assert(!source_clash(first as int));
            first += 1;
        }
        proof {
            search::lemma_first_absent(source_clash, 0, sources.len() as int);
        }
        let source_index = RelativePathIndex::from_paths(&source_paths);
        let overlay_paths = overlay_texts(&overlays);
        let overlay_overlaps = overlapping_later_paths(&overlay_paths);
        let ghost overlay_clash = |i: int| overlay_fault(sources, files, i) is Some;
        let mut index: usize = 0;
        while index < overlay_paths.len()
            invariant
                index <= overlay_paths.len(),
                texts_of(source_paths@) == sources,
                texts_of(overlay_paths@) == files,
                files.len() == overlay_paths.len(),
                sources.len() == source_paths.len(),
                sources.len() > 0,
                target_root@.len() > 0,
                files == files_of(overlays@),
                directories == texts_of(empty_directories@),
                sources == targets_of(source_mappings@),
                search::first_such(
                    |i: int| first_overlap(sources, i + 1, sources[i]) is Some,
                    0,
                    sources.len() as int,
                ) is None,
                source_index.well_formed(),
                source_index@ == path_index::declarations(source_paths@),
                overlay_overlaps.len() == overlay_paths.len(),
                overlay_clash == (|i: int| overlay_fault(sources, files, i) is Some),
                forall|i: int|
                    0 <= i < overlay_paths.len() ==> windows_path::has_only_names(
                        (#[trigger] overlay_paths[i])@,
                    ),
                forall|i: int|
                    0 <= i < overlay_paths.len() ==> path_index::is_first_later_overlap(
                        overlay_paths@,
                        i,
                        #[trigger] overlay_overlaps[i],
                    ),
                forall|k: int| 0 <= k < index ==> !#[trigger] overlay_clash(k),
            decreases overlay_paths.len() - index,
        {
            let path = overlay_paths[index].as_str();
            proof {
                lemma_later_overlap(overlay_paths@, index as int, overlay_overlaps[index as int]);
                lemma_index_finds_first(source_paths@, path@);
                lemma_index_finds_ancestor(source_paths@, path@);
                assert(files[index as int] == path@);
            }
            if let Some(other) = overlay_overlaps[index] {
                proof {
                    assert(overlay_clash(index as int));
                    search::lemma_first_found(overlay_clash, 0, files.len() as int, index as int);
                }
                return Err(
                    DirectoryStageRequestError::OverlappingOverlays {
                        first: overlay_paths[index].clone(),
                        second: overlay_paths[other].clone(),
                    },
                );
            }
            if source_index.first_strict_ancestor(path).is_none() {
                if let Some(mapping) = source_index.first_overlapping(path) {
                    proof {
                        assert(overlay_clash(index as int));
                        search::lemma_first_found(overlay_clash, 0, files.len() as int, index as int);
                        search::lemma_first_meaning(
                            |j: int| path_overlap(sources[j], files[index as int]),
                            0,
                            sources.len() as int,
                        );
                    }
                    return Err(
                        DirectoryStageRequestError::OverlayOverlapsSourceTarget {
                            overlay: overlay_paths[index].clone(),
                            source_target: source_paths[mapping].clone(),
                        },
                    );
                }
            }
            assert(!overlay_clash(index as int));
            index += 1;
        }
        proof {
            search::lemma_first_absent(overlay_clash, 0, files.len() as int);
        }
        let overlay_index = RelativePathIndex::from_paths(&overlay_paths);
        let ghost invalid = |i: int| !is_stage_relative(directories[i]);
        let mut checked: usize = 0;
        while checked < empty_directories.len()
            invariant
                checked <= empty_directories.len(),
                directories.len() == empty_directories.len(),
                sources.len() > 0,
                target_root@.len() > 0,
                files == files_of(overlays@),
                directories == texts_of(empty_directories@),
                sources == targets_of(source_mappings@),
                search::first_such(
                    |i: int| first_overlap(sources, i + 1, sources[i]) is Some,
                    0,
                    sources.len() as int,
                ) is None,
                search::first_such(
                    |i: int| overlay_fault(sources, files, i) is Some,
                    0,
                    files.len() as int,
                ) is None,
                invalid == (|i: int| !is_stage_relative(directories[i])),
                forall|k: int| 0 <= k < checked ==> !#[trigger] invalid(k),
            decreases empty_directories.len() - checked,
        {
            let outcome = validate_stage_relative_path(&empty_directories[checked]);
            assert(directories[checked as int] == empty_directories[checked as int]@);
            match outcome {
                Ok(()) => {},
                Err(error) => {
                    proof {
                        assert(invalid(checked as int));
                        search::lemma_first_found(
                            invalid,
                            0,
                            directories.len() as int,
                            checked as int,
                        );
                    }
                    return Err(error);
                },
            }
            assert(!invalid(checked as int));
            checked += 1;
        }
        proof {
            search::lemma_first_absent(invalid, 0, directories.len() as int);
            assert forall|i: int| 0 <= i < empty_directories.len() implies windows_path::has_only_names(
                (#[trigger] empty_directories[i])@,
            ) by {
                assert(!invalid(i));
                lemma_stage_relative_has_only_names(empty_directories[i]@);
            }
        }
        let empty_overlaps = overlapping_later_paths(&empty_directories);
        let ghost directory_clash = |i: int|
            empty_directory_fault(sources, files, directories, i) is Some;
        let mut place: usize = 0;
        while place < empty_directories.len()
            invariant
                place <= empty_directories.len(),
                texts_of(source_paths@) == sources,
                texts_of(overlay_paths@) == files,
                directories.len() == empty_directories.len(),
                files.len() == overlay_paths.len(),
                sources.len() == source_paths.len(),
                sources.len() > 0,
                target_root@.len() > 0,
                files == files_of(overlays@),
                directories == texts_of(empty_directories@),
                sources == targets_of(source_mappings@),
                search::first_such(
                    |i: int| first_overlap(sources, i + 1, sources[i]) is Some,
                    0,
                    sources.len() as int,
                ) is None,
                search::first_such(
                    |i: int| overlay_fault(sources, files, i) is Some,
                    0,
                    files.len() as int,
                ) is None,
                search::first_such(
                    |i: int| !is_stage_relative(directories[i]),
                    0,
                    directories.len() as int,
                ) is None,
                source_index.well_formed(),
                source_index@ == path_index::declarations(source_paths@),
                overlay_index.well_formed(),
                overlay_index@ == path_index::declarations(overlay_paths@),
                empty_overlaps.len() == empty_directories.len(),
                directory_clash == (|i: int|
                    empty_directory_fault(sources, files, directories, i) is Some),
                forall|i: int|
                    0 <= i < empty_directories.len() ==> windows_path::has_only_names(
                        (#[trigger] empty_directories[i])@,
                    ),
                forall|i: int|
                    0 <= i < empty_directories.len() ==> path_index::is_first_later_overlap(
                        empty_directories@,
                        i,
                        #[trigger] empty_overlaps[i],
                    ),
                forall|k: int| 0 <= k < place ==> !#[trigger] directory_clash(k),
            decreases empty_directories.len() - place,
        {
            let path = empty_directories[place].as_str();
            proof {
                lemma_later_overlap(empty_directories@, place as int, empty_overlaps[place as int]);
                lemma_index_finds_first(source_paths@, path@);
                lemma_index_finds_first(overlay_paths@, path@);
                assert(directories[place as int] == path@);
                search::lemma_first_meaning(
                    |j: int| path_overlap(sources[j], directories[place as int]),
                    0,
                    sources.len() as int,
                );
                search::lemma_first_meaning(
                    |j: int| path_overlap(files[j], directories[place as int]),
                    0,
                    files.len() as int,
                );
            }
            if let Some(other) = empty_overlaps[place] {
                proof {
                    assert(directory_clash(place as int));
                    search::lemma_first_found(
                        directory_clash,
                        0,
                        directories.len() as int,
                        place as int,
                    );
                }
                return Err(
                    DirectoryStageRequestError::OverlappingEmptyDirectories {
                        first: empty_directories[place].clone(),
                        second: empty_directories[other].clone(),
                    },
                );
            }
            if let Some(overlay) = overlay_index.first_overlapping(path) {
                proof {
                    assert(directory_clash(place as int));
                    search::lemma_first_found(
                        directory_clash,
                        0,
                        directories.len() as int,
                        place as int,
                    );
                }
                return Err(
                    DirectoryStageRequestError::EmptyDirectoryOverlapsOverlay {
                        empty_directory: empty_directories[place].clone(),
                        overlay: overlay_paths[overlay].clone(),
                    },
                );
            }
            if let Some(mapping) = source_index.first_overlapping(path) {
                proof {
                    assert(directory_clash(place as int));
                    search::lemma_first_found(
                        directory_clash,
                        0,
                        directories.len() as int,
                        place as int,
                    );
                }
                return Err(
                    DirectoryStageRequestError::EmptyDirectoryOverlapsSourceTarget {
                        empty_directory: empty_directories[place].clone(),
                        source_target: source_paths[mapping].clone(),
                    },
                );
            }
            assert(!directory_clash(place as int));
            place += 1;
        }
        proof {
            search::lemma_first_absent(directory_clash, 0, directories.len() as int);
        }
        Ok(
            DirectoryStageRequest {
                target_root,
                publish_intent,
                source_mappings,
                overlays,
                empty_directories,
            },
        )
    }

    pub fn target_root(&self) -> (path: &String)
        ensures
            path@ == self.target_text(),
    {
        &self.target_root
    }

    pub fn publish_intent(&self) -> (intent: DirectoryPublishIntent)
        ensures
            intent == self.intent(),
    {
        self.publish_intent
    }

    pub fn source_mappings(&self) -> (mappings: &[DirectorySourceMapping])
        ensures
            mappings@ == self.mappings(),
    {
        self.source_mappings.as_slice()
    }

    pub fn overlays(&self) -> (overlays: &[DirectoryFileOverlay])
        ensures
            overlays@ == self.files(),
    {
        self.overlays.as_slice()
    }

    pub fn empty_directories(&self) -> (directories: &[String])
        ensures
            directories@ == self.directories(),
    {
        self.empty_directories.as_slice()
    }
}

impl Clone for DirectoryStageRequest {
    fn clone(&self) -> (copy: Self)
        ensures
            copy.target_text() == self.target_text(),
            copy.intent() == self.intent(),
            targets_of(copy.mappings()) == targets_of(self.mappings()),
            files_of(copy.files()) == files_of(self.files()),
            texts_of(copy.directories()) == texts_of(self.directories()),
            forall|i: int|
                0 <= i < self.mappings().len() ==> (#[trigger] copy.mappings()[i]).source()
                    == self.mappings()[i].source(),
            forall|i: int|
                0 <= i < self.files().len() ==> (#[trigger] copy.files()[i]).content()
                    == self.files()[i].content(),
    {
        proof {
            use_type_invariant(self);
        }
        let source_mappings = self.source_mappings.clone();
        let overlays = self.overlays.clone();
        let empty_directories = self.empty_directories.clone();
        assert(targets_of(source_mappings@) =~= targets_of(self.source_mappings@));
        assert(files_of(overlays@) =~= files_of(self.overlays@));
        assert(texts_of(empty_directories@) =~= texts_of(self.empty_directories@));
        DirectoryStageRequest {
            target_root: self.target_root.clone(),
            publish_intent: self.publish_intent,
            source_mappings,
            overlays,
            empty_directories,
        }
    }
}

/// A prepared candidate that is not published yet. The token goes back to the root that
/// made it and is consumed once, by publishing or by discarding.
#[derive(Debug, PartialEq, Eq)]
#[must_use]
pub struct StagedDirectory<T> {
    target_root: String,
    staging_root: String,
    publish_intent: DirectoryPublishIntent,
    state: T,
}

impl<T> StagedDirectory<T> {
    pub closed spec fn target_text(&self) -> Seq<char> {
        self.target_root@
    }

    pub closed spec fn staging_text(&self) -> Seq<char> {
        self.staging_root@
    }

    pub closed spec fn intent(&self) -> DirectoryPublishIntent {
        self.publish_intent
    }

    pub closed spec fn held(&self) -> T {
        self.state
    }

    pub fn new(
        target_root: String,
        staging_root: String,
        publish_intent: DirectoryPublishIntent,
        state: T,
    ) -> (staged: Self)
        ensures
            staged.target_text() == target_root@,
            staged.staging_text() == staging_root@,
            staged.intent() == publish_intent,
            staged.held() == state,
    {
        StagedDirectory { target_root, staging_root, publish_intent, state }
    }

    pub fn target_root(&self) -> (path: &String)
        ensures
            path@ == self.target_text(),
    {
        &self.target_root
    }

    pub fn staging_root(&self) -> (path: &String)
        ensures
            path@ == self.staging_text(),
    {
        &self.staging_root
    }

    pub fn publish_intent(&self) -> (intent: DirectoryPublishIntent)
        ensures
            intent == self.intent(),
    {
        self.publish_intent
    }

    /// For the root that made the token, to mark who cleans up after a failed hand-over.
    pub fn state_mut(&mut self) -> (state: &mut T)
        ensures
            *state == old(self).held(),
            final(self).held() == *final(state),
            final(self).target_text() == old(self).target_text(),
            final(self).staging_text() == old(self).staging_text(),
            final(self).intent() == old(self).intent(),
    {
        &mut self.state
    }

    pub fn state(&self) -> (state: &T)
        ensures
            *state == self.held(),
    {
        &self.state
    }

    pub fn into_parts(self) -> (parts: (String, String, DirectoryPublishIntent, T))
        ensures
            parts.0@ == self.target_text(),
            parts.1@ == self.staging_text(),
            parts.2 == self.intent(),
            parts.3 == self.held(),
    {
        (self.target_root, self.staging_root, self.publish_intent, self.state)
    }
}

} // verus!
