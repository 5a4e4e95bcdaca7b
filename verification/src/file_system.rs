//! Resolving and listing directories and reading files: results and failures.

use vstd::prelude::*;
use vstd::string::*;

verus! {

/// Why an existing directory could not be resolved.
#[derive(Debug)]
pub enum ResolveDirectoryError<E> {
    NotFound { path: String },
    NotDirectory { path: String },
    Io { path: String, source: E },
}

impl<E> ResolveDirectoryError<E> {
    pub open spec fn text(&self, source: Seq<char>) -> Seq<char> {
        match self {
            Self::NotFound { path } => "目录不存在："@ + path@,
            Self::NotDirectory { path } => "路径不是目录："@ + path@,
            Self::Io { path, .. } => "无法解析目录 "@ + path@ + "："@ + source,
        }
    }

    /// The failure in words; `source` is its source in words.
    pub fn message(&self, source: &str) -> (message: String)
        ensures
            message@ == self.text(source@),
    {
        match self {
            Self::NotFound { path } => String::from_str("目录不存在：").concat(path.as_str()),
            Self::NotDirectory { path } => String::from_str("路径不是目录：").concat(path.as_str()),
            Self::Io { path, .. } => String::from_str("无法解析目录 ").concat(path.as_str()).concat(
                "：",
            ).concat(source),
        }
    }

    /// What the failure came from.
    pub fn source(&self) -> (source: Option<&E>)
        ensures
            match source {
                Some(found) => *self matches ResolveDirectoryError::Io { source: held, .. } && held == *found,
                None => !(self is Io),
            },
    {
        match self {
            Self::Io { source, .. } => Some(source),
            Self::NotFound { .. } | Self::NotDirectory { .. } => None,
        }
    }
}

/// Why the entries of a directory could not be listed.
#[derive(Debug)]
pub enum ListDirectoryError<E> {
    NotFound { path: String },
    NotDirectory { path: String },
    Io { path: String, source: E },
}

impl<E> ListDirectoryError<E> {
    pub open spec fn text(&self, source: Seq<char>) -> Seq<char> {
        match self {
            Self::NotFound { path } => "目录不存在："@ + path@,
            Self::NotDirectory { path } => "路径不是目录："@ + path@,
            Self::Io { path, .. } => "无法列举目录 "@ + path@ + "："@ + source,
        }
    }

    /// The failure in words; `source` is its source in words.
    pub fn message(&self, source: &str) -> (message: String)
        ensures
            message@ == self.text(source@),
    {
        match self {
            Self::NotFound { path } => String::from_str("目录不存在：").concat(path.as_str()),
            Self::NotDirectory { path } => String::from_str("路径不是目录：").concat(path.as_str()),
            Self::Io { path, .. } => String::from_str("无法列举目录 ").concat(path.as_str()).concat(
                "：",
            ).concat(source),
        }
    }

    /// What the failure came from.
    pub fn source(&self) -> (source: Option<&E>)
        ensures
            match source {
                Some(found) => *self matches ListDirectoryError::Io { source: held, .. } && held == *found,
                None => !(self is Io),
            },
    {
        match self {
            Self::Io { source, .. } => Some(source),
            Self::NotFound { .. } | Self::NotDirectory { .. } => None,
        }
    }
}

/// What a directory entry is.
#[derive(Clone, Copy, Debug, PartialEq, Eq, Structural)]
pub enum DirectoryEntryKind {
    RegularFile,
    Directory,
}

/// An entry of a directory, resolved and classified.
#[derive(Debug, PartialEq, Eq)]
pub struct DirectoryEntry {
    resolved_path: String,
    kind: DirectoryEntryKind,
}

impl DirectoryEntry {
    pub closed spec fn path(&self) -> Seq<char> {
        self.resolved_path@
    }

    pub closed spec fn is_a(&self) -> DirectoryEntryKind {
        self.kind
    }

    pub fn new(resolved_path: String, kind: DirectoryEntryKind) -> (entry: Self)
        ensures
            entry.path() == resolved_path@,
            entry.is_a() == kind,
    {
        DirectoryEntry { resolved_path, kind }
    }

    pub fn resolved_path(&self) -> (path: &str)
        ensures
            path@ == self.path(),
    {
        self.resolved_path.as_str()
    }

    pub fn kind(&self) -> (kind: DirectoryEntryKind)
        ensures
            kind == self.is_a(),
    {
        self.kind
    }
}

/// A file that was read as a whole.
#[derive(Debug, PartialEq, Eq)]
pub struct ReadFile {
    resolved_path: String,
    bytes: Vec<u8>,
}

impl ReadFile {
    pub closed spec fn path(&self) -> Seq<char> {
        self.resolved_path@
    }

    pub closed spec fn contents(&self) -> Seq<u8> {
        self.bytes@
    }

    pub fn new(resolved_path: String, bytes: Vec<u8>) -> (file: Self)
        ensures
            file.path() == resolved_path@,
            file.contents() == bytes@,
    {
        ReadFile { resolved_path, bytes }
    }

    pub fn resolved_path(&self) -> (path: &str)
        ensures
            path@ == self.path(),
    {
        self.resolved_path.as_str()
    }

    pub fn into_bytes(self) -> (bytes: Vec<u8>)
        ensures
            bytes@ == self.contents(),
    {
        self.bytes
    }
}

/// Why a file could not be read.
#[derive(Debug)]
pub enum ReadFileError<E> {
    NotFound { path: String },
    NotFile { path: String },
    Io { path: String, source: E },
}

impl<E> ReadFileError<E> {
    pub open spec fn text(&self, source: Seq<char>) -> Seq<char> {
        match self {
            Self::NotFound { path } => "文件不存在："@ + path@,
            Self::NotFile { path } => "路径不是文件："@ + path@,
            Self::Io { path, .. } => "无法读取文件 "@ + path@ + "："@ + source,
        }
    }

    /// The failure in words; `source` is its source in words.
    pub fn message(&self, source: &str) -> (message: String)
        ensures
            message@ == self.text(source@),
    {
        match self {
            Self::NotFound { path } => String::from_str("文件不存在：").concat(path.as_str()),
            Self::NotFile { path } => String::from_str("路径不是文件：").concat(path.as_str()),
            Self::Io { path, .. } => String::from_str("无法读取文件 ").concat(path.as_str()).concat(
                "：",
            ).concat(source),
        }
    }

    /// What the failure came from.
    pub fn source(&self) -> (source: Option<&E>)
        ensures
            match source {
                Some(found) => *self matches ReadFileError::Io { source: held, .. } && held == *found,
                None => !(self is Io),
            },
    {
        match self {
            Self::Io { source, .. } => Some(source),
            Self::NotFound { .. } | Self::NotFile { .. } => None,
        }
    }
}

} // verus!
