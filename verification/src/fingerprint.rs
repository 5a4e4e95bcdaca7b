//! Which directory trees a content fingerprint covers.

use vstd::prelude::*;
use vstd::string::*;
use crate::path_index;
use crate::path_index::overlapping_later_paths;
use crate::search;
use crate::windows_path;
use crate::windows_path::only_names;

verus! {

/// Whether `path` may be the logical root of a tree: a relative path of ordinary names.
pub open spec fn is_logical_root(path: Seq<char>) -> bool {
    path.len() > 0 && windows_path::has_only_names(path)
}

/// Why a fingerprint request is refused.
#[derive(Debug, PartialEq, Eq)]
pub enum DirectoryTreeFingerprintRequestError {
    EmptyRoots,
    EmptyPhysicalRoot,
    InvalidLogicalRoot { path: String },
    OverlappingLogicalRoots { first: String, second: String },
}

impl DirectoryTreeFingerprintRequestError {
    pub open spec fn text(&self) -> Seq<char> {
        match self {
            Self::EmptyRoots => "目录树指纹至少需要一个逻辑根"@,
            Self::EmptyPhysicalRoot => "目录树物理根不能为空"@,
            Self::InvalidLogicalRoot { path } => "目录树逻辑根必须是安全相对路径："@ + path@,
            Self::OverlappingLogicalRoots { first, second } => "目录树逻辑根不能重叠："@ + first@ + " 与 "@
                + second@,
        }
    }

    pub fn message(&self) -> (message: String)
        ensures
            message@ == self.text(),
    {
        match self {
            Self::EmptyRoots => String::from_str("目录树指纹至少需要一个逻辑根"),
            Self::EmptyPhysicalRoot => String::from_str("目录树物理根不能为空"),
            Self::InvalidLogicalRoot { path } => String::from_str(
                "目录树逻辑根必须是安全相对路径：",
            ).concat(path.as_str()),
            Self::OverlappingLogicalRoots { first, second } => String::from_str(
                "目录树逻辑根不能重叠：",
            ).concat(first.as_str()).concat(" 与 ").concat(second.as_str()),
        }
    }
}

/// Refuses a logical root that is empty or holds anything but names.
pub fn validate_tree_logical_root(path: &String) -> (result: Result<
    (),
    DirectoryTreeFingerprintRequestError,
>)
    ensures
        result is Ok <==> is_logical_root(path@),
        result matches Err(error) ==> error == (
        DirectoryTreeFingerprintRequestError::InvalidLogicalRoot { path: *path }),
{
    if path.as_str().unicode_len() == 0 || !only_names(path.as_str()) {
        return Err(DirectoryTreeFingerprintRequestError::InvalidLogicalRoot { path: path.clone() });
    }
    Ok(())
}

/// A directory tree and the stable name under which its contents count.
#[derive(Debug, PartialEq, Eq)]
pub struct DirectoryTreeRoot {
    physical_root: String,
    logical_root: String,
}

/// Whether `result` answers the wish to count a tree under a name.
pub open spec fn is_tree(
    physical_root: Seq<char>,
    logical_root: String,
    result: Result<DirectoryTreeRoot, DirectoryTreeFingerprintRequestError>,
) -> bool {
    match result {
        Ok(root) => {
            &&& physical_root.len() > 0 && is_logical_root(logical_root@)
            &&& root.physical() == physical_root
            &&& root.logical() == logical_root@
        },
        Err(error) => if physical_root.len() == 0 {
            error == DirectoryTreeFingerprintRequestError::EmptyPhysicalRoot
        } else {
            !is_logical_root(logical_root@) && error == (
            DirectoryTreeFingerprintRequestError::InvalidLogicalRoot { path: logical_root })
        },
    }
}

impl DirectoryTreeRoot {
    #[verifier::type_invariant]
    spec fn is_valid(&self) -> bool {
        self.physical_root@.len() > 0 && is_logical_root(self.logical_root@)
    }

    /// Where the tree is.
    pub closed spec fn physical(&self) -> Seq<char> {
        self.physical_root@
    }

    /// The name under which it counts.
    pub closed spec fn logical(&self) -> Seq<char> {
        self.logical_root@
    }

    pub fn new(physical_root: String, logical_root: String) -> (result: Result<
        Self,
        DirectoryTreeFingerprintRequestError,
    >)
        ensures
            is_tree(physical_root@, logical_root, result),
    {
        if physical_root.as_str().unicode_len() == 0 {
            return Err(DirectoryTreeFingerprintRequestError::EmptyPhysicalRoot);
        }
        if let Err(error) = validate_tree_logical_root(&logical_root) {
            return Err(error);
        }
        Ok(DirectoryTreeRoot { physical_root, logical_root })
    }

    pub fn physical_root(&self) -> (path: &str)
        ensures
            path@ == self.physical(),
            path@.len() > 0,
    {
        proof {
            use_type_invariant(self);
        }
        self.physical_root.as_str()
    }

    pub fn logical_root(&self) -> (path: &str)
        ensures
            path@ == self.logical(),
            is_logical_root(path@),
    {
        proof {
            use_type_invariant(self);
        }
        self.logical_root.as_str()
    }
}

/// Whether the logical roots at `i` and `j` are equal or one lies in the other.
pub open spec fn roots_overlap(roots: Seq<DirectoryTreeRoot>, i: int, j: int) -> bool {
    path_index::overlaps(
        windows_path::components(roots[j].logical()),
        windows_path::components(roots[i].logical()),
    )
}

/// The roots after `i` that overlap it.
pub open spec fn overlapping_after(roots: Seq<DirectoryTreeRoot>, i: int) -> spec_fn(int) -> bool {
    |j: int| roots_overlap(roots, i, j)
}

/// The first root after `i` that overlaps it.
pub open spec fn later_overlap(roots: Seq<DirectoryTreeRoot>, i: int) -> Option<int> {
    search::first_such(overlapping_after(roots, i), i + 1, roots.len() as int)
}

/// The roots that overlap a later one.
pub open spec fn overlapping_some(roots: Seq<DirectoryTreeRoot>) -> spec_fn(int) -> bool {
    |i: int| later_overlap(roots, i) is Some
}

/// The first root that overlaps a later one.
pub open spec fn first_overlapping(roots: Seq<DirectoryTreeRoot>) -> Option<int> {
    search::first_such(overlapping_some(roots), 0, roots.len() as int)
}

/// A checked request for the fingerprint of several trees.
#[derive(Debug, PartialEq, Eq)]
pub struct DirectoryTreeFingerprintRequest {
    roots: Vec<DirectoryTreeRoot>,
}

/// Whether `result` answers the request for the fingerprint of some trees.
pub open spec fn is_answered(
    roots: Seq<DirectoryTreeRoot>,
    result: Result<DirectoryTreeFingerprintRequest, DirectoryTreeFingerprintRequestError>,
) -> bool {
    match result {
        Ok(request) => {
            &&& roots.len() > 0 && first_overlapping(roots) is None
            &&& request.trees() == roots
        },
        Err(error) => if roots.len() == 0 {
            error == DirectoryTreeFingerprintRequestError::EmptyRoots
        } else {
            &&& first_overlapping(roots) matches Some(i)
            &&& later_overlap(roots, i) matches Some(j)
            &&& error matches DirectoryTreeFingerprintRequestError::OverlappingLogicalRoots {
                first,
                second,
            }
            &&& first@ == roots[i].logical()
            &&& second@ == roots[j].logical()
        },
    }
}

impl DirectoryTreeFingerprintRequest {
    #[verifier::type_invariant]
    spec fn is_valid(&self) -> bool {
        self.roots@.len() > 0 && first_overlapping(self.roots@) is None
    }

    /// The trees.
    pub closed spec fn trees(&self) -> Seq<DirectoryTreeRoot> {
        self.roots@
    }

    /// Accepts one or more trees whose logical roots do not overlap. Of several overlaps
    /// the one of the earliest root is reported, with the earliest root it meets.
    pub fn new(roots: Vec<DirectoryTreeRoot>) -> (result: Result<
        Self,
        DirectoryTreeFingerprintRequestError,
    >)
        ensures
            is_answered(roots@, result),
    {
        if roots.len() == 0 {
            return Err(DirectoryTreeFingerprintRequestError::EmptyRoots);
        }
        let mut logical_roots: Vec<String> = Vec::new();
        let mut filled: usize = 0;
        while filled < roots.len()
            invariant
                filled <= roots.len(),
                logical_roots.len() == filled,
                forall|k: int|
                    0 <= k < filled ==> (#[trigger] logical_roots[k])@ == roots@[k].logical()
                        && is_logical_root(logical_roots[k]@),
            decreases roots.len() - filled,
        {
            logical_roots.push(String::from_str(roots[filled].logical_root()));
            filled += 1;
        }
        let overlapping = overlapping_later_paths(&logical_roots);
        let ghost some = overlapping_some(roots@);
        let mut i: usize = 0;
        while i < roots.len()
            invariant
                i <= roots.len(),
                roots.len() > 0,
                logical_roots.len() == roots.len(),
                overlapping.len() == roots.len(),
                some == overlapping_some(roots@),
                forall|k: int|
                    0 <= k < roots.len() ==> (#[trigger] logical_roots[k])@ == roots@[k].logical(),
                forall|k: int|
                    0 <= k < roots.len() ==> path_index::is_first_later_overlap(
                        logical_roots@,
                        k,
                        #[trigger] overlapping[k],
                    ),
                forall|k: int| 0 <= k < i ==> !#[trigger] some(k),
            decreases roots.len() - i,
        {
            proof {
                let after = overlapping_after(roots@, i as int);
                assert(path_index::is_first_later_overlap(
                    logical_roots@,
                    i as int,
                    overlapping[i as int],
                ));
                match overlapping[i as int] {
                    Some(j) => {
                        assert(logical_roots[j as int]@ == roots@[j as int].logical());
                        assert(logical_roots[i as int]@ == roots@[i as int].logical());
                        assert(after(j as int));
                        assert forall|m: int| i + 1 <= m < j implies !#[trigger] after(m) by {
                            assert(logical_roots[m]@ == roots@[m].logical());
                        }
                        search::lemma_first_found(after, i + 1, roots.len() as int, j as int);
                    },
                    None => {
                        assert forall|m: int| i + 1 <= m < roots.len() implies !#[trigger] after(m) by {
                            assert(logical_roots[m]@ == roots@[m].logical());
                            assert(logical_roots[i as int]@ == roots@[i as int].logical());
                        }
                        search::lemma_first_absent(after, i + 1, roots.len() as int);
                    },
                }
            }
            if let Some(j) = overlapping[i] {
                proof {
                    assert(some(i as int));
                    search::lemma_first_found(some, 0, roots.len() as int, i as int);
                }
                return Err(
                    DirectoryTreeFingerprintRequestError::OverlappingLogicalRoots {
                        first: String::from_str(roots[i].logical_root()),
                        second: String::from_str(roots[j].logical_root()),
                    },
                );
            }
            assert(!some(i as int));
            i += 1;
        }
        proof {
            search::lemma_first_absent(some, 0, roots.len() as int);
        }
        Ok(DirectoryTreeFingerprintRequest { roots })
    }

    pub fn roots(&self) -> (roots: &Vec<DirectoryTreeRoot>)
        ensures
            roots@ == self.trees(),
            roots@.len() > 0,
            first_overlapping(roots@) is None,
    {
        proof {
            use_type_invariant(self);
        }
        &self.roots
    }
}

/// In an accepted request no two logical roots are equal, and none lies in another.
pub proof fn accepted_roots_are_disjoint(roots: Seq<DirectoryTreeRoot>, i: int, j: int)
    requires
        first_overlapping(roots) is None,
        0 <= i < j < roots.len(),
    ensures
        !roots_overlap(roots, i, j),
{
    let some = overlapping_some(roots);
    search::lemma_first_meaning(some, 0, roots.len() as int);
    assert(!some(i));
    let after = overlapping_after(roots, i);
    search::lemma_first_meaning(after, i + 1, roots.len() as int);
    assert(!after(j));
}

/// Why a fingerprint could not be taken.
#[derive(Debug)]
pub enum DirectoryTreeFingerprintError<E> {
    NotFound { path: String },
    NotDirectory { path: String },
    ChangedDuringObservation { path: String },
    Failed { path: String, source: E },
}

impl<E> DirectoryTreeFingerprintError<E> {
    pub open spec fn text(&self, source: Seq<char>) -> Seq<char> {
        match self {
            Self::NotFound { path } => "目录树不存在："@ + path@,
            Self::NotDirectory { path } => "目录树根不是目录："@ + path@,
            Self::ChangedDuringObservation { path } => "目录树在建立指纹期间发生变化："@ + path@,
            Self::Failed { path, .. } => "无法建立目录树指纹 "@ + path@ + "："@ + source,
        }
    }

    /// The failure in words; `source` is its source in words.
    pub fn message(&self, source: &str) -> (message: String)
        ensures
            message@ == self.text(source@),
    {
        match self {
            Self::NotFound { path } => String::from_str("目录树不存在：").concat(path.as_str()),
            Self::NotDirectory { path } => String::from_str("目录树根不是目录：").concat(path.as_str()),
            Self::ChangedDuringObservation { path } => String::from_str(
                "目录树在建立指纹期间发生变化：",
            ).concat(path.as_str()),
            Self::Failed { path, .. } => String::from_str("无法建立目录树指纹 ").concat(
                path.as_str(),
            ).concat("：").concat(source),
        }
    }

    /// What the failure came from.
    pub fn source(&self) -> (source: Option<&E>)
        ensures
            match source {
                Some(found) => *self matches DirectoryTreeFingerprintError::Failed { source: held, .. }
                    && held == *found,
                None => !(self is Failed),
            },
    {
        match self {
            Self::Failed { source, .. } => Some(source),
            Self::NotFound { .. } | Self::NotDirectory { .. } | Self::ChangedDuringObservation { .. } => {
                None
            },
        }
    }
}

} // verus!
