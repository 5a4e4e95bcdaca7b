//! Editing only declared parts of a directory candidate.

use vstd::prelude::*;
use vstd::string::*;
use crate::search;
use crate::text_order;
use crate::text_order::{first_repetition, holds, sorted};
use crate::windows_path;
use crate::windows_path::{only_names, path_components};

verus! {

/// Whether `root` names one top-level directory: a single ordinary name without a colon.
pub open spec fn is_top_level_name(root: Seq<char>) -> bool {
    &&& windows_path::has_only_names(root)
    &&& windows_path::components(root).len() == 1
    &&& !windows_path::components(root)[0].contains(':')
}

/// Whether `root` names one top-level directory.
fn names_top_level(root: &str) -> (result: bool)
    ensures
        result == is_top_level_name(root@),
{
    if !only_names(root) {
        return false;
    }
    let components = path_components(root);
    assert(windows_path::names(components@).len() == components.len());
    if components.len() != 1 {
        return false;
    }
    let name = &components[0];
    assert(windows_path::names(components@)[0] == name@);
    let mut i: usize = 0;
    while i < name.len()
        invariant
            i <= name.len(),
            name@ == windows_path::components(root@)[0],
            forall|k: int| 0 <= k < i ==> name@[k] != ':',
        decreases name.len() - i,
    {
        if name[i] == ':' {
            assert(name@.contains(':'));
            return false;
        }
        i += 1;
    }
    true
}

/// A path inside a candidate, as the names it walks through.
#[derive(Debug, PartialEq, Eq)]
pub struct ScopedDirectoryPath {
    first: String,
    rest: Vec<String>,
}

impl ScopedDirectoryPath {
    /// The top-level directory.
    pub closed spec fn top(&self) -> Seq<char> {
        self.first@
    }

    /// The names below it.
    pub closed spec fn below(&self) -> Seq<Seq<char>> {
        text_order::texts(self.rest@)
    }

    pub fn new(first: String, rest: Vec<String>) -> (path: Self)
        ensures
            path.top() == first@,
            path.below() == text_order::texts(rest@),
    {
        ScopedDirectoryPath { first, rest }
    }

    pub fn first_component(&self) -> (name: &str)
        ensures
            name@ == self.top(),
    {
        self.first.as_str()
    }

    pub fn is_top_level(&self) -> (result: bool)
        ensures
            result == (self.below().len() == 0),
    {
        self.rest.len() == 0
    }
}

/// Why a scope is refused.
#[derive(Debug, PartialEq, Eq)]
pub enum ScopedDirectoryScopeError {
    Empty,
    InvalidRoot { root: String },
    DuplicateRoot { root: String },
}

impl ScopedDirectoryScopeError {
    pub open spec fn text(&self) -> Seq<char> {
        match self {
            Self::Empty => "候选编辑范围必须至少声明一个顶层目录"@,
            Self::InvalidRoot { root } => "候选编辑范围必须使用单个安全相对路径段："@ + root@,
            Self::DuplicateRoot { root } => "候选编辑范围重复声明顶层目录："@ + root@,
        }
    }

    pub fn message(&self) -> (message: String)
        ensures
            message@ == self.text(),
    {
        match self {
            Self::Empty => String::from_str("候选编辑范围必须至少声明一个顶层目录"),
            Self::InvalidRoot { root } => String::from_str(
                "候选编辑范围必须使用单个安全相对路径段：",
            ).concat(root.as_str()),
            Self::DuplicateRoot { root } => String::from_str(
                "候选编辑范围重复声明顶层目录：",
            ).concat(root.as_str()),
        }
    }
}

/// The roots that cannot be part of a scope.
pub open spec fn unfit_roots(roots: Seq<String>) -> spec_fn(int) -> bool {
    |i: int| !is_top_level_name(roots[i]@)
}

/// The first root that cannot be part of a scope.
pub open spec fn first_unfit(roots: Seq<String>) -> Option<int> {
    search::first_such(unfit_roots(roots), 0, roots.len() as int)
}

/// The top-level directories of a candidate that may be edited.
#[derive(Debug, PartialEq, Eq)]
pub struct ScopedDirectoryScope {
    roots: Vec<String>,
}

/// Whether `result` answers the wish to edit some directories of a candidate.
pub open spec fn is_scoped(
    roots: Seq<String>,
    result: Result<ScopedDirectoryScope, ScopedDirectoryScopeError>,
) -> bool {
    &&& match result {
        Ok(scope) => {
            &&& roots.len() > 0
            &&& first_unfit(roots) is None
            &&& text_order::strictly_ascending(scope.declared())
            &&& scope.declared().to_multiset() == text_order::texts(roots).to_multiset()
        },
        Err(ScopedDirectoryScopeError::Empty) => roots.len() == 0,
        Err(ScopedDirectoryScopeError::InvalidRoot { root }) => {
            &&& first_unfit(roots) matches Some(i)
            &&& root == roots[i]
        },
        Err(ScopedDirectoryScopeError::DuplicateRoot { root }) => {
            &&& first_unfit(roots) is None
            &&& text_order::first_repeated(text_order::texts(roots), root@)
        },
    }
    &&& result is Ok <==> roots.len() > 0 && first_unfit(roots) is None && forall|text: Seq<char>|
        !#[trigger] text_order::repeated(text_order::texts(roots), text)
}

impl ScopedDirectoryScope {
    #[verifier::type_invariant]
    spec fn is_valid(&self) -> bool {
        self.roots@.len() > 0 && text_order::strictly_ascending(text_order::texts(self.roots@))
    }

    /// The declared directories, in order.
    pub closed spec fn declared(&self) -> Seq<Seq<char>> {
        text_order::texts(self.roots@)
    }

    /// Whether the path lies in a declared directory.
    pub open spec fn covers(&self, path: ScopedDirectoryPath) -> bool {
        self.declared().contains(path.top())
    }

    /// Whether the path is itself a declared directory.
    pub open spec fn has_root(&self, path: ScopedDirectoryPath) -> bool {
        path.below().len() == 0 && self.declared().contains(path.top())
    }

    /// Accepts one or more different top-level names, in any order.
    pub fn new(roots: Vec<String>) -> (result: Result<Self, ScopedDirectoryScopeError>)
        ensures
            is_scoped(roots@, result),
    {
        if roots.len() == 0 {
            return Err(ScopedDirectoryScopeError::Empty);
        }
        let ghost unfit = unfit_roots(roots@);
        let ghost declared = text_order::texts(roots@);
        let mut i: usize = 0;
        while i < roots.len()
            invariant
                i <= roots.len(),
                roots.len() > 0,
                unfit == unfit_roots(roots@),
                forall|k: int| 0 <= k < i ==> !#[trigger] unfit(k),
            decreases roots.len() - i,
        {
            if !names_top_level(roots[i].as_str()) {
                proof {
                    assert(unfit(i as int));
                    search::lemma_first_found(unfit, 0, roots.len() as int, i as int);
                }
                return Err(ScopedDirectoryScopeError::InvalidRoot { root: roots[i].clone() });
            }
            assert(!unfit(i as int));
            i += 1;
        }
        proof {
            search::lemma_first_absent(unfit, 0, roots.len() as int);
        }
        let ordered = sorted(roots);
        proof {
            vstd::seq_lib::to_multiset_len(declared);
            vstd::seq_lib::to_multiset_len(text_order::texts(ordered@));
        }
        assert(forall|text: Seq<char>| #[trigger]
            text_order::repeated(declared, text) == text_order::repeated(
                text_order::texts(ordered@),
                text,
            ));
        if let Some(found) = first_repetition(&ordered) {
            let root = ordered[found].clone();
            proof {
                assert(text_order::repeated(declared, root@));
                assert forall|other: Seq<char>| #[trigger] text_order::repeated(
                    declared,
                    other,
                ) implies !crate::order::text_lt(other, root@) by {
                    assert(text_order::repeated(text_order::texts(ordered@), other));
                }
            }
            return Err(ScopedDirectoryScopeError::DuplicateRoot { root });
        }
        Ok(ScopedDirectoryScope { roots: ordered })
    }

    pub fn roots(&self) -> (roots: &Vec<String>)
        ensures
            text_order::texts(roots@) == self.declared(),
            roots@.len() > 0,
            text_order::strictly_ascending(self.declared()),
    {
        proof {
            use_type_invariant(self);
        }
        &self.roots
    }

    /// Whether the path lies in a declared directory.
    pub fn contains(&self, path: &ScopedDirectoryPath) -> (result: bool)
        ensures
            result == self.covers(*path),
    {
        proof {
            use_type_invariant(self);
        }
        holds(&self.roots, path.first_component())
    }

    /// Whether the path is itself a declared directory.
    pub fn is_scope_root(&self, path: &ScopedDirectoryPath) -> (result: bool)
        ensures
            result == self.has_root(*path),
    {
        path.is_top_level() && self.contains(path)
    }
}

#[derive(Clone, Copy, Debug, PartialEq, Eq, Structural)]
pub enum ScopedDirectoryEntryKind {
    File,
    Directory,
}

/// An entry of a candidate directory.
#[derive(Debug, PartialEq, Eq)]
pub struct ScopedDirectoryEntry {
    name: String,
    kind: ScopedDirectoryEntryKind,
}

impl ScopedDirectoryEntry {
    pub closed spec fn called(&self) -> Seq<char> {
        self.name@
    }

    pub closed spec fn is_a(&self) -> ScopedDirectoryEntryKind {
        self.kind
    }

    pub fn new(name: String, kind: ScopedDirectoryEntryKind) -> (entry: Self)
        ensures
            entry.called() == name@,
            entry.is_a() == kind,
    {
        ScopedDirectoryEntry { name, kind }
    }

    pub fn name(&self) -> (name: &str)
        ensures
            name@ == self.called(),
    {
        self.name.as_str()
    }

    pub fn kind(&self) -> (kind: ScopedDirectoryEntryKind)
        ensures
            kind == self.is_a(),
    {
        self.kind
    }
}

/// The right to edit the declared parts of one candidate that is not yet published.
#[derive(Debug)]
pub struct BoundScopedDirectory<T> {
    root: String,
    scope: ScopedDirectoryScope,
    state: T,
}

impl<T> BoundScopedDirectory<T> {
    pub closed spec fn place(&self) -> Seq<char> {
        self.root@
    }

    pub closed spec fn limits(&self) -> ScopedDirectoryScope {
        self.scope
    }

    pub closed spec fn held(&self) -> T {
        self.state
    }

    pub fn new(root: String, scope: ScopedDirectoryScope, state: T) -> (bound: Self)
        ensures
            bound.place() == root@,
            bound.limits() == scope,
            bound.held() == state,
    {
        BoundScopedDirectory { root, scope, state }
    }

    pub fn root(&self) -> (root: &str)
        ensures
            root@ == self.place(),
    {
        self.root.as_str()
    }

    pub fn state(&self) -> (state: &T)
        ensures
            *state == self.held(),
    {
        &self.state
    }

    pub fn scope(&self) -> (scope: &ScopedDirectoryScope)
        ensures
            *scope == self.limits(),
    {
        &self.scope
    }
}

/// Why a candidate cannot be bound for editing.
#[derive(Debug)]
pub enum ScopedDirectoryBindError<E> {
    WrongEditorInstance,
    CandidateFinalized { root: String },
    CandidateIdentityChanged { root: String },
    Failed { root: String, source: E },
}

impl<E> ScopedDirectoryBindError<E> {
    pub open spec fn text(&self, source: Seq<char>) -> Seq<char> {
        match self {
            Self::WrongEditorInstance => "目录候选不能绑定到另一个文件系统根实例"@,
            Self::CandidateFinalized { root } => "目录候选已经终结："@ + root@,
            Self::CandidateIdentityChanged { root } => "目录候选物理身份已经变化："@ + root@,
            Self::Failed { root, .. } => "无法绑定目录候选 "@ + root@ + "："@ + source,
        }
    }

    /// The failure in words; `source` is its source in words.
    pub fn message(&self, source: &str) -> (message: String)
        ensures
            message@ == self.text(source@),
    {
        match self {
            Self::WrongEditorInstance => String::from_str("目录候选不能绑定到另一个文件系统根实例"),
            Self::CandidateFinalized { root } => String::from_str("目录候选已经终结：").concat(
                root.as_str(),
            ),
            Self::CandidateIdentityChanged { root } => String::from_str(
                "目录候选物理身份已经变化：",
            ).concat(root.as_str()),
            Self::Failed { root, .. } => String::from_str("无法绑定目录候选 ").concat(
                root.as_str(),
            ).concat("：").concat(source),
        }
    }

    /// What the failure came from.
    pub fn source(&self) -> (source: Option<&E>)
        ensures
            match source {
                Some(found) => *self matches ScopedDirectoryBindError::Failed { source: held, .. }
                    && held == *found,
                None => !(self is Failed),
            },
    {
        match self {
            Self::Failed { source, .. } => Some(source),
            Self::WrongEditorInstance
            | Self::CandidateFinalized { .. }
            | Self::CandidateIdentityChanged { .. } => None,
        }
    }
}

/// Why an edit of a candidate was refused or failed.
#[derive(Debug)]
pub enum ScopedDirectoryEditError<E> {
    WrongEditorInstance,
    OutsideScope { path: String },
    ScopeRootMutation { path: String },
    NotFound { path: String },
    NotFile { path: String },
    NotDirectory { path: String },
    CandidateIdentityChanged { root: String },
    Failed { path: String, source: E },
}

impl<E> ScopedDirectoryEditError<E> {
    pub open spec fn text(&self, source: Seq<char>) -> Seq<char> {
        match self {
            Self::WrongEditorInstance => "候选编辑令牌不能交给另一个文件系统根实例"@,
            Self::OutsideScope { path } => "候选路径不在调用方声明的编辑范围内："@ + path@,
            Self::ScopeRootMutation { path } => "不能修改候选编辑子树根："@ + path@,
            Self::NotFound { path } => "候选路径不存在："@ + path@,
            Self::NotFile { path } => "候选路径不是文件："@ + path@,
            Self::NotDirectory { path } => "候选路径不是目录："@ + path@,
            Self::CandidateIdentityChanged { root } => "目录候选物理身份已经变化："@ + root@,
            Self::Failed { path, .. } => "候选目录操作失败 "@ + path@ + "："@ + source,
        }
    }

    /// The failure in words; `source` is its source in words.
    pub fn message(&self, source: &str) -> (message: String)
        ensures
            message@ == self.text(source@),
    {
        match self {
            Self::WrongEditorInstance => String::from_str("候选编辑令牌不能交给另一个文件系统根实例"),
            Self::OutsideScope { path } => String::from_str("候选路径不在调用方声明的编辑范围内：").concat(
                path.as_str(),
            ),
            Self::ScopeRootMutation { path } => String::from_str("不能修改候选编辑子树根：").concat(
                path.as_str(),
            ),
            Self::NotFound { path } => String::from_str("候选路径不存在：").concat(path.as_str()),
            Self::NotFile { path } => String::from_str("候选路径不是文件：").concat(path.as_str()),
            Self::NotDirectory { path } => String::from_str("候选路径不是目录：").concat(path.as_str()),
            Self::CandidateIdentityChanged { root } => String::from_str(
                "目录候选物理身份已经变化：",
            ).concat(root.as_str()),
            Self::Failed { path, .. } => String::from_str("候选目录操作失败 ").concat(
                path.as_str(),
            ).concat("：").concat(source),
        }
    }

    /// What the failure came from.
    pub fn source(&self) -> (source: Option<&E>)
        ensures
            match source {
                Some(found) => *self matches ScopedDirectoryEditError::Failed { source: held, .. }
                    && held == *found,
                None => !(self is Failed),
            },
    {
        match self {
            Self::Failed { source, .. } => Some(source),
            Self::WrongEditorInstance
            | Self::OutsideScope { .. }
            | Self::ScopeRootMutation { .. }
            | Self::NotFound { .. }
            | Self::NotFile { .. }
            | Self::NotDirectory { .. }
            | Self::CandidateIdentityChanged { .. } => None,
        }
    }
}

} // verus!
