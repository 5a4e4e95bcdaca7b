//! Identity, volume rules, locks and renames of Windows files: the decisions around the
//! system calls.

use vstd::prelude::*;
use vstd::string::*;
use crate::diagnostic;
use crate::diagnostic::{IoError, IoFailure, SafeIoKind, SafePath, SafeText};
use crate::text;
use crate::text::{characters, push_hex};

verus! {

/// The attribute of a file that stands for another.
pub const FILE_ATTRIBUTE_REPARSE_POINT: u32 = 0x400;

/// A volume that is built into this machine.
pub const DRIVE_FIXED: u32 = 3;

/// A directory in which upper and lower case differ.
pub const FILE_CS_FLAG_CASE_SENSITIVE_DIR: u32 = 1;

/// Another process has the file open in a way that excludes this one.
pub const ERROR_SHARING_VIOLATION: i32 = 32;

/// Another process holds the lock.
pub const ERROR_LOCK_VIOLATION: i32 = 33;

pub const FILE_SHARE_READ: u32 = 1;

pub const FILE_SHARE_WRITE: u32 = 2;

pub const FILE_SHARE_DELETE: u32 = 4;

/// What a diagnostic is about.
#[derive(Debug, PartialEq, Eq)]
pub enum DiagnosticSubject {
    Path { path: SafePath },
    Operation { operation: &'static str },
}

/// The failures that diagnostics of the file system tell apart.
#[derive(Clone, Copy, Debug, PartialEq, Eq, Structural)]
pub enum DiagnosticFailureKind {
    ReparsePointForbidden,
    NonLocalVolume,
    NonNtfsVolume,
    CaseSensitiveDirectory,
    LockCancelled,
    TargetAlreadyExists,
    FileIdentityChanged,
}

/// Why something failed.
#[derive(Debug, PartialEq, Eq)]
pub enum DiagnosticReason {
    Failure(DiagnosticFailureKind),
    Io { operation: &'static str, failure: IoFailure },
    WindowsStatus { operation: &'static str, status: i32 },
}

/// What the user can do.
#[derive(Clone, Copy, Debug, PartialEq, Eq, Structural)]
pub enum DiagnosticAction {
    CheckPathAndPermissions,
    Retry,
}

/// What a file system diagnostic says. The code, the stage and the impact are the caller's.
#[derive(Debug, PartialEq, Eq)]
pub struct SafeDiagnostic<C, S, I> {
    pub code: C,
    pub stage: S,
    pub subject: DiagnosticSubject,
    pub reason: DiagnosticReason,
    pub impact: I,
    pub action: DiagnosticAction,
    /// Further facts, one per component.
    pub recovery: Vec<SafeText>,
}

/// What went wrong at the boundary to the system.
#[derive(Debug, PartialEq, Eq)]
pub enum WindowsFsError {
    Io { operation: &'static str, path: String, source: IoError },
    ReparsePoint { path: String },
    NonLocalVolume { path: String },
    NonNtfsVolume { path: String, actual: String },
    CaseSensitiveDirectory { path: String },
    LockCancelled { path: String },
    RenameTargetExists { path: String },
    FileIdentityChanged { path: String },
    Cryptography { operation: &'static str, status: i32 },
}

/// A status as the system writes it: without a sign.
pub open spec fn unsigned(status: i32) -> nat {
    if status >= 0 {
        status as nat
    } else {
        (status + 0x1_0000_0000) as nat
    }
}

impl WindowsFsError {
    /// The path that the failure concerns.
    pub open spec fn place(&self) -> Option<Seq<char>> {
        match self {
            Self::Io { path, .. } => Some(path@),
            Self::ReparsePoint { path } => Some(path@),
            Self::NonLocalVolume { path } => Some(path@),
            Self::NonNtfsVolume { path, .. } => Some(path@),
            Self::CaseSensitiveDirectory { path } => Some(path@),
            Self::LockCancelled { path } => Some(path@),
            Self::RenameTargetExists { path } => Some(path@),
            Self::FileIdentityChanged { path } => Some(path@),
            Self::Cryptography { .. } => None,
        }
    }

    /// The failure's kind, unless the system gave a code of its own.
    pub open spec fn failure_kind(&self) -> Option<DiagnosticFailureKind> {
        match self {
            Self::Io { .. } => None,
            Self::ReparsePoint { .. } => Some(DiagnosticFailureKind::ReparsePointForbidden),
            Self::NonLocalVolume { .. } => Some(DiagnosticFailureKind::NonLocalVolume),
            Self::NonNtfsVolume { .. } => Some(DiagnosticFailureKind::NonNtfsVolume),
            Self::CaseSensitiveDirectory { .. } => Some(
                DiagnosticFailureKind::CaseSensitiveDirectory,
            ),
            Self::LockCancelled { .. } => Some(DiagnosticFailureKind::LockCancelled),
            Self::RenameTargetExists { .. } => Some(DiagnosticFailureKind::TargetAlreadyExists),
            Self::FileIdentityChanged { .. } => Some(DiagnosticFailureKind::FileIdentityChanged),
            Self::Cryptography { .. } => None,
        }
    }

    /// Whether `result` tells this failure without the system's words.
    pub open spec fn is_told_by<C, S, I>(
        &self,
        code: C,
        stage: S,
        impact: I,
        fallback_action: DiagnosticAction,
        result: SafeDiagnostic<C, S, I>,
    ) -> bool {
        &&& result.code == code
        &&& result.stage == stage
        &&& result.impact == impact
        &&& result.action == (match self {
            Self::Io { .. } => DiagnosticAction::CheckPathAndPermissions,
            Self::LockCancelled { .. } => DiagnosticAction::Retry,
            Self::Cryptography { .. } => DiagnosticAction::Retry,
            _ => fallback_action,
        })
        &&& match self.place() {
            Some(place) => result.subject matches DiagnosticSubject::Path { path } && path@
                == diagnostic::safe_path(place),
            None => *self matches Self::Cryptography { operation, .. } && result.subject == (
            DiagnosticSubject::Operation { operation }),
        }
        &&& result.reason == (match self {
            Self::Io { operation, source, .. } => DiagnosticReason::Io {
                operation: *operation,
                failure: source.failure(),
            },
            Self::Cryptography { operation, status } => DiagnosticReason::WindowsStatus {
                operation: *operation,
                status: *status,
            },
            _ => DiagnosticReason::Failure(self.failure_kind()->0),
        })
        &&& match self {
            Self::NonNtfsVolume { actual, .. } => {
                &&& result.recovery@.len() == 1
                &&& result.recovery@[0]@ == diagnostic::single_line("filesystem="@ + actual@)
            },
            _ => result.recovery@.len() == 0,
        }
    }

    /// The diagnostic keeps the path, the operation and the system's codes, and none of the
    /// system's words.
    pub fn safe_diagnostic<C, S, I>(
        &self,
        code: C,
        stage: S,
        impact: I,
        fallback_action: DiagnosticAction,
    ) -> (result: SafeDiagnostic<C, S, I>)
        ensures
            self.is_told_by(code, stage, impact, fallback_action, result),
    {
        let mut recovery: Vec<SafeText> = Vec::new();
        let (subject, reason, action) = match self {
            Self::Io { operation, path, source } => (
                DiagnosticSubject::Path { path: SafePath::new(path.as_str()) },
                DiagnosticReason::Io { operation: *operation, failure: IoFailure::from_error(source) },
                DiagnosticAction::CheckPathAndPermissions,
            ),
            Self::ReparsePoint { path } => (
                DiagnosticSubject::Path { path: SafePath::new(path.as_str()) },
                DiagnosticReason::Failure(DiagnosticFailureKind::ReparsePointForbidden),
                fallback_action,
            ),
            Self::NonLocalVolume { path } => (
                DiagnosticSubject::Path { path: SafePath::new(path.as_str()) },
                DiagnosticReason::Failure(DiagnosticFailureKind::NonLocalVolume),
                fallback_action,
            ),
            Self::NonNtfsVolume { path, actual } => {
                let fact = String::from_str("filesystem=").concat(actual.as_str());
                recovery.push(SafeText::new(fact.as_str()));
                (
                    DiagnosticSubject::Path { path: SafePath::new(path.as_str()) },
                    DiagnosticReason::Failure(DiagnosticFailureKind::NonNtfsVolume),
                    fallback_action,
                )
            },
            Self::CaseSensitiveDirectory { path } => (
                DiagnosticSubject::Path { path: SafePath::new(path.as_str()) },
                DiagnosticReason::Failure(DiagnosticFailureKind::CaseSensitiveDirectory),
                fallback_action,
            ),
            Self::LockCancelled { path } => (
                DiagnosticSubject::Path { path: SafePath::new(path.as_str()) },
                DiagnosticReason::Failure(DiagnosticFailureKind::LockCancelled),
                DiagnosticAction::Retry,
            ),
            Self::RenameTargetExists { path } => (
                DiagnosticSubject::Path { path: SafePath::new(path.as_str()) },
                DiagnosticReason::Failure(DiagnosticFailureKind::TargetAlreadyExists),
                fallback_action,
            ),
            Self::FileIdentityChanged { path } => (
                DiagnosticSubject::Path { path: SafePath::new(path.as_str()) },
                DiagnosticReason::Failure(DiagnosticFailureKind::FileIdentityChanged),
                fallback_action,
            ),
            Self::Cryptography { operation, status } => (
                DiagnosticSubject::Operation { operation: *operation },
                DiagnosticReason::WindowsStatus { operation: *operation, status: *status },
                DiagnosticAction::Retry,
            ),
        };
        SafeDiagnostic { code, stage, subject, reason, impact, action, recovery }
    }

    pub open spec fn text(&self) -> Seq<char> {
        match self {
            Self::Io { operation, path, source } => operation@ + " "@ + path@ + " 失败："@ + source.text@,
            Self::ReparsePoint { path } => "路径是被禁止的 reparse point："@ + path@,
            Self::NonLocalVolume { path } => "路径不位于本机固定卷："@ + path@,
            Self::NonNtfsVolume { path, actual } => "路径不位于 NTFS 卷（实际："@ + actual@ + "）："@ + path@,
            Self::CaseSensitiveDirectory { path } => "目录启用了大小写敏感语义："@ + path@,
            Self::LockCancelled { path } => "等待文件锁已取消："@ + path@,
            Self::RenameTargetExists { path } => "无覆盖重命名的目标已经存在："@ + path@,
            Self::FileIdentityChanged { path } => "待重命名对象的文件身份已经变化："@ + path@,
            Self::Cryptography { operation, status } => operation@ + " 失败（NTSTATUS 0x"@
                + text::hex_fixed(unsigned(*status), 8) + "）"@,
        }
    }

    /// The failure in words.
    pub fn message(&self) -> (message: String)
        ensures
            message@ == self.text(),
    {
        match self {
            Self::Io { operation, path, source } => String::from_str(operation).concat(" ").concat(
                path.as_str(),
            ).concat(" 失败：").concat(source.text.as_str()),
            Self::ReparsePoint { path } => String::from_str("路径是被禁止的 reparse point：").concat(
                path.as_str(),
            ),
            Self::NonLocalVolume { path } => String::from_str("路径不位于本机固定卷：").concat(
                path.as_str(),
            ),
            Self::NonNtfsVolume { path, actual } => String::from_str("路径不位于 NTFS 卷（实际：").concat(
                actual.as_str(),
            ).concat("）：").concat(path.as_str()),
            Self::CaseSensitiveDirectory { path } => String::from_str("目录启用了大小写敏感语义：").concat(
                path.as_str(),
            ),
            Self::LockCancelled { path } => String::from_str("等待文件锁已取消：").concat(path.as_str()),
            Self::RenameTargetExists { path } => String::from_str("无覆盖重命名的目标已经存在：").concat(
                path.as_str(),
            ),
            Self::FileIdentityChanged { path } => String::from_str("待重命名对象的文件身份已经变化：").concat(
                path.as_str(),
            ),
            Self::Cryptography { operation, status } => {
                let mut message = String::from_str(operation).concat(" 失败（NTSTATUS 0x");
                let digits: u64 = if *status >= 0 {
                    *status as u64
                } else {
                    (*status as i64 + 0x1_0000_0000) as u64
                };
                push_hex(&mut message, digits, 8);
                message.concat("）")
            },
        }
    }

    /// What the failure came from.
    pub fn source(&self) -> (source: Option<&IoError>)
        ensures
            match source {
                Some(found) => *self matches Self::Io { source: held, .. } && held == *found,
                None => !(self is Io),
            },
    {
        match self {
            Self::Io { source, .. } => Some(source),
            _ => None,
        }
    }
}

/// A failure of the system at `path`.
pub fn io_error(operation: &'static str, path: &str, source: IoError) -> (error: WindowsFsError)
    ensures
        error matches WindowsFsError::Io { operation: o, path: p, source: s } && o == operation && p@
            == path@ && s == source,
{
    WindowsFsError::Io { operation, path: String::from_str(path), source }
}

/// The textual form of sixteen bytes: groups of 4, 2, 2, 2 and 6 bytes in lower-case
/// hexadecimal, with hyphens between them.
pub open spec fn hyphenated(bytes: Seq<u8>) -> Seq<char> {
    hex_bytes(bytes.subrange(0, 4)) + seq!['-'] + hex_bytes(bytes.subrange(4, 6)) + seq!['-'] + hex_bytes(
        bytes.subrange(6, 8),
    ) + seq!['-'] + hex_bytes(bytes.subrange(8, 10)) + seq!['-'] + hex_bytes(bytes.subrange(10, 16))
}

/// Two hexadecimal digits per byte.
pub open spec fn hex_bytes(bytes: Seq<u8>) -> Seq<char>
    decreases bytes.len(),
{
    if bytes.len() == 0 {
        Seq::empty()
    } else {
        hex_bytes(bytes.drop_last()) + text::hex_fixed(bytes.last() as nat, 2)
    }
}

/// `uuid::Uuid::from_bytes` and its display. Claimed: the UUID holds the bytes in their
/// order, and is shown in the hyphenated lower-case form.
#[verifier::external_body]
fn uuid_text(bytes: [u8; 16]) -> (text: String)
    ensures
        text@ == hyphenated(bytes@),
{
    uuid::Uuid::from_bytes(bytes).to_string()
}

/// Random bytes with the marks of a random UUID: version 4 and the RFC 4122 variant.
pub open spec fn marked(bytes: Seq<u8>) -> Seq<u8> {
    bytes.update(6, (bytes[6] % 16 + 0x40) as u8).update(8, (bytes[8] % 64 + 0x80) as u8)
}

/// The random UUID made of `bytes`, which the system's generator filled with `status`.
pub fn secure_uuid_v4(operation: &'static str, status: i32, bytes: [u8; 16]) -> (result: Result<
    String,
    WindowsFsError,
>)
    ensures
        result == Err::<String, WindowsFsError>(WindowsFsError::Cryptography { operation, status })
            <==> status != 0,
        result matches Ok(text) ==> status == 0 && text@ == hyphenated(marked(bytes@)),
        result is Err ==> status != 0,
{
    if status != 0 {
        return Err(WindowsFsError::Cryptography { operation, status });
    }
    let mut bytes = bytes;
    let ghost before = bytes@;
    let version: u8 = bytes[6];
    let variant: u8 = bytes[8];
    assert((version & 0x0f) | 0x40 == version % 16 + 0x40) by (bit_vector);
    assert((variant & 0x3f) | 0x80 == variant % 64 + 0x80) by (bit_vector);
    bytes[6] = (version & 0x0f) | 0x40;
    bytes[8] = (variant & 0x3f) | 0x80;
    assert(bytes@ =~= marked(before));
    Ok(uuid_text(bytes))
}

/// The identity of a file within its volume.
#[derive(Clone, Copy, Debug)]
pub struct FileIdentity {
    volume_serial_number: u64,
    file_id: [u8; 16],
}

impl FileIdentity {
    pub closed spec fn volume(&self) -> u64 {
        self.volume_serial_number
    }

    pub closed spec fn id(&self) -> Seq<u8> {
        self.file_id@
    }

    pub fn from_parts(volume_serial_number: u64, file_id: [u8; 16]) -> (identity: Self)
        ensures
            identity.volume() == volume_serial_number,
            identity.id() == file_id@,
    {
        FileIdentity { volume_serial_number, file_id }
    }

    /// The identity as a text of fixed length.
    pub fn stable_hex(&self) -> (value: String)
        ensures
            value@ == text::hex_fixed(self.volume() as nat, 16) + hex_bytes(self.id()),
    {
        let mut value = String::new();
        push_hex(&mut value, self.volume_serial_number, 16);
        let ghost volume = text::hex_fixed(self.volume() as nat, 16);
        assert(value@ =~= volume);
        let mut i: usize = 0;
        assert(value@ =~= volume + hex_bytes(self.id().take(0)));
        while i < 16
            invariant
                i <= 16,
                self.id().len() == 16,
                value@ == volume + hex_bytes(self.id().take(i as int)),
            decreases 16 - i,
        {
            push_hex(&mut value, self.file_id[i] as u64, 2);
            proof {
                assert(self.id().take(i + 1).drop_last() =~= self.id().take(i as int));
                assert(self.id().take(i + 1).last() == self.id()[i as int]);
                assert(value@ =~= volume + hex_bytes(self.id().take(i + 1)));
            }
            i += 1;
        }
        assert(self.id().take(16) =~= self.id());
        value
    }

    /// Whether both are the same file.
    pub fn same_as(&self, other: &Self) -> (same: bool)
        ensures
            same == (self.volume() == other.volume() && self.id() == other.id()),
    {
        if self.volume_serial_number != other.volume_serial_number {
            return false;
        }
        let mut i: usize = 0;
        while i < 16
            invariant
                i <= 16,
                self.id().len() == 16,
                other.id().len() == 16,
                forall|k: int| 0 <= k < i ==> self.id()[k] == other.id()[k],
            decreases 16 - i,
        {
            if self.file_id[i] != other.file_id[i] {
                assert(self.id()[i as int] != other.id()[i as int]);
                return false;
            }
            i += 1;
        }
        assert(self.id() =~= other.id());
        true
    }
}

/// What others may do with an object that is held.
pub open spec fn sharing(share_delete: bool) -> int {
    if share_delete {
        FILE_SHARE_READ + FILE_SHARE_WRITE + FILE_SHARE_DELETE
    } else {
        FILE_SHARE_READ + FILE_SHARE_WRITE
    }
}

/// With which others an opened file is shared; deleting is shared only on request.
pub fn share_mode(share_delete: bool) -> (mode: u32)
    ensures
        mode == sharing(share_delete),
{
    if share_delete {
        FILE_SHARE_READ + FILE_SHARE_WRITE + FILE_SHARE_DELETE
    } else {
        FILE_SHARE_READ + FILE_SHARE_WRITE
    }
}

/// Refuses a file that stands for another.
pub fn reject_reparse(attributes: u32, path: &str) -> (result: Result<(), WindowsFsError>)
    ensures
        match result {
            Ok(_) => attributes & FILE_ATTRIBUTE_REPARSE_POINT == 0,
            Err(error) => attributes & FILE_ATTRIBUTE_REPARSE_POINT != 0 && (
            error matches WindowsFsError::ReparsePoint { path: p } && p@ == path@),
        },
{
    if attributes & FILE_ATTRIBUTE_REPARSE_POINT != 0 {
        return Err(WindowsFsError::ReparsePoint { path: String::from_str(path) });
    }
    Ok(())
}

/// Whether `error` says at `path` that something is not what was asked for.
pub open spec fn is_refusal(
    error: WindowsFsError,
    operation: &'static str,
    path: Seq<char>,
    reason: &'static str,
) -> bool {
    &&& error matches WindowsFsError::Io { operation: o, path: p, source }
    &&& o == operation && p@ == path
    &&& source.kind == SafeIoKind::InvalidInput && source.raw_os_code is None && source.text@ == reason@
}

pub fn refusal(operation: &'static str, path: &str, reason: &'static str) -> (error: WindowsFsError)
    ensures
        is_refusal(error, operation, path@, reason),
{
    io_error(
        operation,
        path,
        IoError {
            kind: SafeIoKind::InvalidInput,
            raw_os_code: None,
            text: String::from_str(reason),
        },
    )
}

/// Insists on an ordinary file.
pub fn require_regular_file(operation: &'static str, path: &str, is_file: bool) -> (result: Result<
    (),
    WindowsFsError,
>)
    ensures
        match result {
            Ok(_) => is_file,
            Err(error) => !is_file && is_refusal(error, operation, path@, "目标不是普通文件"),
        },
{
    if is_file {
        Ok(())
    } else {
        Err(refusal(operation, path, "目标不是普通文件"))
    }
}

/// Insists on a directory.
pub fn require_directory(operation: &'static str, path: &str, is_directory: bool) -> (result: Result<
    (),
    WindowsFsError,
>)
    ensures
        match result {
            Ok(_) => is_directory,
            Err(error) => !is_directory && is_refusal(error, operation, path@, "目标不是目录"),
        },
{
    if is_directory {
        Ok(())
    } else {
        Err(refusal(operation, path, "目标不是目录"))
    }
}

/// Insists that what is to be deleted is what the caller meant.
pub fn require_deletable(path: &str, directory: bool, is_directory: bool, is_file: bool) -> (result: Result<
    (),
    WindowsFsError,
>)
    ensures
        match result {
            Ok(_) => is_directory == directory && (directory || is_file),
            Err(error) => !(is_directory == directory && (directory || is_file)) && is_refusal(
                error,
                "确认待删除对象类型",
                path@,
                "对象类型与删除意图不一致",
            ),
        },
{
    if is_directory != directory || (!directory && !is_file) {
        return Err(refusal("确认待删除对象类型", path, "对象类型与删除意图不一致"));
    }
    Ok(())
}

/// Insists that a file is still the one that was meant.
pub fn require_identity(path: &str, actual: &FileIdentity, expected: &Option<FileIdentity>) -> (result: Result<
    (),
    WindowsFsError,
>)
    ensures
        ({
            let same = match expected {
                Some(expected) => actual.volume() == expected.volume() && actual.id()
                    == expected.id(),
                None => true,
            };
            match result {
                Ok(_) => same,
                Err(error) => !same && (error matches WindowsFsError::FileIdentityChanged { path: p }
                    && p@ == path@),
            }
        }),
{
    if let Some(expected) = expected {
        if !actual.same_as(expected) {
            return Err(WindowsFsError::FileIdentityChanged { path: String::from_str(path) });
        }
    }
    Ok(())
}

/// What to do about one directory on the way to a new one.
#[derive(Debug, PartialEq, Eq)]
pub enum DirectoryStep {
    /// It is there.
    Keep,
    /// It is missing: create it.
    Create,
    /// Open it again.
    Open,
    Fail(WindowsFsError),
}

/// What follows the attempt to open a directory that may have to be made.
pub open spec fn step_after_opening(result: Result<(), WindowsFsError>) -> DirectoryStep {
    match result {
        Ok(_) => DirectoryStep::Keep,
        Err(WindowsFsError::Io { operation, path, source }) => if source.kind == SafeIoKind::NotFound {
            DirectoryStep::Create
        } else {
            DirectoryStep::Fail(WindowsFsError::Io { operation, path, source })
        },
        Err(error) => DirectoryStep::Fail(error),
    }
}

/// Decides after the attempt to open a directory: only a missing one is created.
pub fn after_opening(result: Result<(), WindowsFsError>) -> (step: DirectoryStep)
    ensures
        step == step_after_opening(result),
{
    match result {
        Ok(_) => DirectoryStep::Keep,
        Err(WindowsFsError::Io { operation, path, source }) => {
            if source.kind == SafeIoKind::NotFound {
                DirectoryStep::Create
            } else {
                DirectoryStep::Fail(WindowsFsError::Io { operation, path, source })
            }
        },
        Err(error) => DirectoryStep::Fail(error),
    }
}

/// Whether `step` follows the attempt to make a directory.
pub open spec fn is_step_after_creating(
    path: Seq<char>,
    result: Result<(), IoError>,
    step: DirectoryStep,
) -> bool {
    match result {
        Ok(_) => step is Open,
        Err(source) => if source.kind == SafeIoKind::AlreadyExists {
            step is Open
        } else {
            step matches DirectoryStep::Fail(WindowsFsError::Io { operation, path: p, source: s })
                && operation == "建立目录组件" && p@ == path && s == source
        },
    }
}

/// Decides after the attempt to create a directory: someone else may have been faster.
pub fn after_creating(path: &str, result: Result<(), IoError>) -> (step: DirectoryStep)
    ensures
        is_step_after_creating(path@, result, step),
{
    match result {
        Ok(_) => DirectoryStep::Open,
        Err(source) => {
            if source.kind == SafeIoKind::AlreadyExists {
                DirectoryStep::Open
            } else {
                DirectoryStep::Fail(io_error("建立目录组件", path, source))
            }
        },
    }
}

/// Whether a UTF-16 unit begins a pair.
pub open spec fn is_high_surrogate(unit: u16) -> bool {
    0xd800 <= unit < 0xdc00
}

/// Whether a UTF-16 unit ends a pair.
pub open spec fn is_low_surrogate(unit: u16) -> bool {
    0xdc00 <= unit < 0xe000
}

/// The text of UTF-16 units: a pair stands for one character, and half a pair is replaced.
pub open spec fn utf16_text(units: Seq<u16>) -> Seq<char>
    decreases units.len(),
{
    if units.len() == 0 {
        Seq::empty()
    } else if !is_high_surrogate(units[0]) && !is_low_surrogate(units[0]) {
        seq![units[0] as char] + utf16_text(units.skip(1))
    } else if is_high_surrogate(units[0]) && units.len() > 1 && is_low_surrogate(units[1]) {
        seq![(0x10000 + (units[0] - 0xd800) * 0x400 + (units[1] - 0xdc00)) as char] + utf16_text(
            units.skip(2),
        )
    } else {
        seq!['\u{fffd}'] + utf16_text(units.skip(1))
    }
}

/// `String::from_utf16_lossy`. Claimed: the characters that the units encode, with a
/// replacement character for each surrogate that has no partner.
#[verifier::external_body]
fn decode_utf16(units: &Vec<u16>) -> (text: String)
    ensures
        text@ == utf16_text(units@),
{
    String::from_utf16_lossy(units)
}

/// The units before the first zero.
pub open spec fn up_to_nul(units: Seq<u16>) -> Seq<u16>
    decreases units.len(),
{
    if units.len() == 0 || units[0] == 0 {
        Seq::empty()
    } else {
        seq![units[0]] + up_to_nul(units.drop_first())
    }
}

/// The units of a buffer before the first zero.
fn terminated(buffer: &Vec<u16>) -> (units: Vec<u16>)
    ensures
        units@ == up_to_nul(buffer@),
{
    let mut units: Vec<u16> = Vec::new();
    let mut i: usize = 0;
    assert(buffer@.skip(0) =~= buffer@);
    while i < buffer.len() && buffer[i] != 0
        invariant
            i <= buffer.len(),
            up_to_nul(buffer@) == units@ + up_to_nul(buffer@.skip(i as int)),
        decreases buffer.len() - i,
    {
        let ghost before = units@;
        units.push(buffer[i]);
        proof {
            let rest = buffer@.skip(i as int);
            assert(rest[0] == buffer[i as int]);
            assert(rest.drop_first() =~= buffer@.skip(i + 1));
            assert(before + (seq![rest[0]] + up_to_nul(rest.drop_first())) =~= units@ + up_to_nul(
                buffer@.skip(i + 1),
            ));
        }
        i += 1;
    }
    proof {
        let rest = buffer@.skip(i as int);
        if i < buffer.len() {
            assert(rest[0] == 0);
        }
        assert(up_to_nul(rest) =~= Seq::<u16>::empty());
        assert(units@ + Seq::<u16>::empty() =~= units@);
    }
    units
}

/// Whether both are the same letter, in upper or lower case, or the same character.
pub open spec fn same_ignoring_case(c: char, upper: char) -> bool {
    c == upper || ('a' <= c <= 'z' && c as int - 32 == upper as int)
}

/// Whether the text is the name of the file system that this library works on.
pub open spec fn is_ntfs(name: Seq<char>) -> bool {
    name.len() == 4 && same_ignoring_case(name[0], 'N') && same_ignoring_case(name[1], 'T')
        && same_ignoring_case(name[2], 'F') && same_ignoring_case(name[3], 'S')
}

/// Refuses a volume that is not built into this machine.
pub fn check_drive(path: &str, drive_type: u32) -> (result: Result<(), WindowsFsError>)
    ensures
        match result {
            Ok(_) => drive_type == DRIVE_FIXED,
            Err(error) => drive_type != DRIVE_FIXED && (error matches WindowsFsError::NonLocalVolume {
                path: p,
            } && p@ == path@),
        },
{
    if drive_type != DRIVE_FIXED {
        return Err(WindowsFsError::NonLocalVolume { path: String::from_str(path) });
    }
    Ok(())
}

/// Refuses a volume with another file system, whose name is `actual`.
pub fn check_file_system(path: &str, actual: String) -> (result: Result<(), WindowsFsError>)
    ensures
        match result {
            Ok(_) => is_ntfs(actual@),
            Err(error) => !is_ntfs(actual@) && (error matches WindowsFsError::NonNtfsVolume {
                path: p,
                actual: a,
            } && p@ == path@ && a == actual),
        },
{
    let name = characters(actual.as_str());
    let fits = name.len() == 4 && (name[0] == 'N' || name[0] == 'n') && (name[1] == 'T' || name[1]
        == 't') && (name[2] == 'F' || name[2] == 'f') && (name[3] == 'S' || name[3] == 's');
    if !fits {
        return Err(WindowsFsError::NonNtfsVolume { path: String::from_str(path), actual });
    }
    Ok(())
}

/// Refuses a volume by the buffer into which the system wrote its file system's name.
pub fn check_file_system_buffer(path: &str, buffer: &Vec<u16>) -> (result: Result<(), WindowsFsError>)
    ensures
        ({
            let actual = utf16_text(up_to_nul(buffer@));
            match result {
                Ok(_) => is_ntfs(actual),
                Err(error) => !is_ntfs(actual) && (error matches WindowsFsError::NonNtfsVolume {
                    path: p,
                    actual: a,
                } && p@ == path@ && a@ == actual),
            }
        }),
{
    let units = terminated(buffer);
    check_file_system(path, decode_utf16(&units))
}

/// Refuses a directory in which upper and lower case differ.
pub fn check_case(path: &str, flags: u32) -> (result: Result<(), WindowsFsError>)
    ensures
        match result {
            Ok(_) => flags & FILE_CS_FLAG_CASE_SENSITIVE_DIR == 0,
            Err(error) => flags & FILE_CS_FLAG_CASE_SENSITIVE_DIR != 0 && (
            error matches WindowsFsError::CaseSensitiveDirectory { path: p } && p@ == path@),
        },
{
    if flags & FILE_CS_FLAG_CASE_SENSITIVE_DIR != 0 {
        return Err(WindowsFsError::CaseSensitiveDirectory { path: String::from_str(path) });
    }
    Ok(())
}

/// What the system is asked about a directory's volume, in this order.
#[derive(Clone, Copy, Debug, PartialEq, Eq, Structural)]
pub enum VolumeQuestion {
    DriveType,
    FileSystem,
    CaseSensitivity,
}

/// What the system answered.
#[derive(Debug)]
pub enum VolumeAnswer {
    DriveType(u32),
    FileSystem(Vec<u16>),
    CaseSensitivity(u32),
    Failed(IoError),
}

impl VolumeAnswer {
    pub open spec fn answers(&self, question: VolumeQuestion) -> bool {
        match self {
            Self::DriveType(_) => question == VolumeQuestion::DriveType,
            Self::FileSystem(_) => question == VolumeQuestion::FileSystem,
            Self::CaseSensitivity(_) => question == VolumeQuestion::CaseSensitivity,
            Self::Failed(_) => true,
        }
    }
}

/// What was being read when an answer failed to come.
pub open spec fn question_text(question: VolumeQuestion) -> &'static str {
    match question {
        VolumeQuestion::DriveType => "读取卷根目录",
        VolumeQuestion::FileSystem => "读取卷信息",
        VolumeQuestion::CaseSensitivity => "读取目录大小写语义",
    }
}

/// The next question about a directory's volume.
#[derive(Clone, Copy, Debug, PartialEq, Eq, Structural)]
pub enum VolumeVerdict {
    Ask(VolumeQuestion),
    Accepted,
}

/// Whether `result` is what follows from the answer to a question about a volume.
pub open spec fn is_volume_verdict(
    path: Seq<char>,
    question: VolumeQuestion,
    answer: VolumeAnswer,
    result: Result<VolumeVerdict, WindowsFsError>,
) -> bool {
    match answer {
        VolumeAnswer::Failed(source) => result matches Err(
            WindowsFsError::Io { operation, path: p, source: s },
        ) && operation == question_text(question) && p@ == path && s == source,
        VolumeAnswer::DriveType(drive_type) => if drive_type == DRIVE_FIXED {
            result == Ok::<VolumeVerdict, WindowsFsError>(
                VolumeVerdict::Ask(VolumeQuestion::FileSystem),
            )
        } else {
            result matches Err(WindowsFsError::NonLocalVolume { path: p }) && p@ == path
        },
        VolumeAnswer::FileSystem(buffer) => {
            let actual = utf16_text(up_to_nul(buffer@));
            if is_ntfs(actual) {
                result == Ok::<VolumeVerdict, WindowsFsError>(
                    VolumeVerdict::Ask(VolumeQuestion::CaseSensitivity),
                )
            } else {
                result matches Err(WindowsFsError::NonNtfsVolume { path: p, actual: a }) && p@ == path
                    && a@ == actual
            }
        },
        VolumeAnswer::CaseSensitivity(flags) => if flags & FILE_CS_FLAG_CASE_SENSITIVE_DIR == 0 {
            result == Ok::<VolumeVerdict, WindowsFsError>(VolumeVerdict::Accepted)
        } else {
            result matches Err(WindowsFsError::CaseSensitiveDirectory { path: p }) && p@ == path
        },
    }
}

/// Accepts only directories on a fixed NTFS volume that do not tell upper from lower case.
/// The questions are asked one after another; the first bad answer decides.
pub fn validate_local_case_insensitive_ntfs_directory(
    path: &str,
    question: VolumeQuestion,
    answer: VolumeAnswer,
) -> (result: Result<VolumeVerdict, WindowsFsError>)
    requires
        answer.answers(question),
    ensures
        is_volume_verdict(path@, question, answer, result),
{
    match answer {
        VolumeAnswer::Failed(source) => {
            let operation = match question {
                VolumeQuestion::DriveType => "读取卷根目录",
                VolumeQuestion::FileSystem => "读取卷信息",
                VolumeQuestion::CaseSensitivity => "读取目录大小写语义",
            };
            Err(io_error(operation, path, source))
        },
        VolumeAnswer::DriveType(drive_type) => match check_drive(path, drive_type) {
            Ok(_) => Ok(VolumeVerdict::Ask(VolumeQuestion::FileSystem)),
            Err(error) => Err(error),
        },
        VolumeAnswer::FileSystem(buffer) => match check_file_system_buffer(path, &buffer) {
            Ok(_) => Ok(VolumeVerdict::Ask(VolumeQuestion::CaseSensitivity)),
            Err(error) => Err(error),
        },
        VolumeAnswer::CaseSensitivity(flags) => match check_case(path, flags) {
            Ok(_) => Ok(VolumeVerdict::Accepted),
            Err(error) => Err(error),
        },
    }
}

/// What to do about a file lock.
#[derive(Debug, PartialEq, Eq)]
pub enum LockStep {
    /// Try to take it.
    Attempt,
    /// It is taken.
    Acquired,
    /// Someone else has it: wait a little, then decide anew.
    Wait,
    Fail(WindowsFsError),
}

/// Decides before each attempt whether waiting still makes sense.
pub fn before_lock_attempt(path: &str, continue_waiting: bool) -> (step: LockStep)
    ensures
        continue_waiting ==> step == LockStep::Attempt,
        !continue_waiting ==> (step matches LockStep::Fail(WindowsFsError::LockCancelled { path: p })
            && p@ == path@),
{
    if continue_waiting {
        LockStep::Attempt
    } else {
        LockStep::Fail(WindowsFsError::LockCancelled { path: String::from_str(path) })
    }
}

/// Whether a failure says that someone else has the lock.
pub open spec fn is_contention(source: IoError) -> bool {
    source.raw_os_code == Some(ERROR_LOCK_VIOLATION) || source.raw_os_code == Some(
        ERROR_SHARING_VIOLATION,
    )
}

/// Whether `step` follows the attempt to lock a file.
pub open spec fn is_step_after_locking(
    path: Seq<char>,
    result: Result<(), IoError>,
    step: LockStep,
) -> bool {
    match result {
        Ok(_) => step == LockStep::Acquired,
        Err(source) => if is_contention(source) {
            step == LockStep::Wait
        } else {
            step matches LockStep::Fail(WindowsFsError::Io { operation, path: p, source: s })
                && operation == "取得文件锁" && p@ == path && s == source
        },
    }
}

/// Decides after an attempt to take a lock.
pub fn after_lock_attempt(path: &str, result: Result<(), IoError>) -> (step: LockStep)
    ensures
        is_step_after_locking(path@, result, step),
{
    match result {
        Ok(_) => LockStep::Acquired,
        Err(source) => {
            let contended = match source.raw_os_code {
                Some(code) => code == ERROR_LOCK_VIOLATION || code == ERROR_SHARING_VIOLATION,
                None => false,
            };
            if contended {
                LockStep::Wait
            } else {
                LockStep::Fail(io_error("取得文件锁", path, source))
            }
        },
    }
}

/// The sizes of the system's request to rename a file.
#[derive(Clone, Copy, Debug, PartialEq, Eq, Structural)]
pub struct RenameLayout {
    /// The whole request, with room for a closing zero.
    pub buffer_bytes: usize,
    /// The words that hold it.
    pub word_count: usize,
    /// The name alone.
    pub name_bytes: u32,
}

/// The sizes for a target name of `units` UTF-16 units behind a header of `header_bytes`,
/// in words of `word_bytes`.
pub fn rename_layout(header_bytes: usize, units: usize, word_bytes: usize) -> (layout: RenameLayout)
    requires
        word_bytes > 0,
        header_bytes + 2 * (units + 1) <= u32::MAX,
    ensures
        layout.buffer_bytes == header_bytes + 2 * (units + 1),
        layout.name_bytes == 2 * units,
        layout.word_count * word_bytes >= layout.buffer_bytes,
        (layout.word_count - 1) * word_bytes < layout.buffer_bytes,
{
    let buffer_bytes: usize = header_bytes + (units + 1) * 2;
    let whole: usize = buffer_bytes / word_bytes;
    let rest: usize = buffer_bytes % word_bytes;
    proof {
        vstd::arithmetic::div_mod::lemma_fundamental_div_mod(
            buffer_bytes as int,
            word_bytes as int,
        );
        assert(whole * word_bytes + rest == buffer_bytes) by (nonlinear_arith)
            requires
                buffer_bytes == word_bytes * whole + rest,
        ;
        assert(whole + rest <= buffer_bytes) by (nonlinear_arith)
            requires
                whole * word_bytes + rest == buffer_bytes,
                word_bytes > 0,
                rest >= 0,
                whole >= 0,
        ;
        assert((whole + 1) * word_bytes == whole * word_bytes + word_bytes) by (nonlinear_arith);
        assert((whole - 1) * word_bytes == whole * word_bytes - word_bytes) by (nonlinear_arith);
    }
    let word_count: usize = if rest == 0 {
        whole
    } else {
        whole + 1
    };
    RenameLayout { buffer_bytes, word_count, name_bytes: (units * 2) as u32 }
}

/// Whether `error` says why something could not be renamed.
pub open spec fn is_rename_failure(target: Seq<char>, source: IoError, error: WindowsFsError) -> bool {
    if source.kind == SafeIoKind::AlreadyExists {
        error matches WindowsFsError::RenameTargetExists { path } && path@ == target
    } else {
        error matches WindowsFsError::Io { operation, path, source: s } && operation == "无覆盖重命名"
            && path@ == target && s == source
    }
}

/// What a failed rename means: a target that exists is never replaced.
pub fn rename_failure(target: &str, source: IoError) -> (error: WindowsFsError)
    ensures
        is_rename_failure(target@, source, error),
{
    if source.kind == SafeIoKind::AlreadyExists {
        WindowsFsError::RenameTargetExists { path: String::from_str(target) }
    } else {
        io_error("无覆盖重命名", target, source)
    }
}

/// Whether `result` allows an opened object to be deleted: one that stands for another is
/// refused first, then one of the wrong kind, then one that is not the expected one.
pub open spec fn is_deletion_verdict(
    path: Seq<char>,
    expected: FileIdentity,
    directory: bool,
    object: OpenedObject,
    result: Result<(), WindowsFsError>,
) -> bool {
    if object.attributes & FILE_ATTRIBUTE_REPARSE_POINT != 0 {
        result matches Err(WindowsFsError::ReparsePoint { path: p }) && p@ == path
    } else if !(object.is_directory == directory && (directory || object.is_file)) {
        result matches Err(error) && is_refusal(
            error,
            "确认待删除对象类型",
            path,
            "对象类型与删除意图不一致",
        )
    } else {
        is_identity_verdict(path, expected, object.identity, result)
    }
}

/// Whether `result` insists on the expected identity, as far as one could be read.
pub open spec fn is_identity_verdict(
    path: Seq<char>,
    expected: FileIdentity,
    identity: Result<FileIdentity, WindowsFsError>,
    result: Result<(), WindowsFsError>,
) -> bool {
    match identity {
        Err(error) => result == Err::<(), WindowsFsError>(error),
        Ok(identity) => if identity.volume() != expected.volume() || identity.id()
            != expected.id() {
            result matches Err(WindowsFsError::FileIdentityChanged { path: p }) && p@ == path
        } else {
            result is Ok
        },
    }
}

fn confirm_identity(
    path: &str,
    expected: FileIdentity,
    identity: Result<FileIdentity, WindowsFsError>,
) -> (result: Result<(), WindowsFsError>)
    ensures
        is_identity_verdict(path@, expected, identity, result),
{
    match identity {
        Ok(identity) => require_identity(path, &identity, &Some(expected)),
        Err(error) => Err(error),
    }
}

/// What was read of an opened object; its identity, if that could be read.
#[derive(Debug)]
pub struct OpenedObject {
    pub attributes: u32,
    pub is_directory: bool,
    pub is_file: bool,
    pub identity: Result<FileIdentity, WindowsFsError>,
}

fn delete_if_identity(path: &str, expected: FileIdentity, directory: bool, object: OpenedObject) -> (result: Result<
    (),
    WindowsFsError,
>)
    ensures
        is_deletion_verdict(path@, expected, directory, object, result),
{
    if let Err(error) = reject_reparse(object.attributes, path) {
        return Err(error);
    }
    if let Err(error) = require_deletable(path, directory, object.is_directory, object.is_file) {
        return Err(error);
    }
    confirm_identity(path, expected, object.identity)
}

/// Whether an opened object may be deleted as the ordinary file that was confirmed.
pub fn delete_regular_file_if_identity(path: &str, expected: FileIdentity, object: OpenedObject) -> (result: Result<
    (),
    WindowsFsError,
>)
    ensures
        is_deletion_verdict(path@, expected, false, object, result),
{
    delete_if_identity(path, expected, false, object)
}

/// Whether an opened object may be deleted as the directory that was confirmed.
pub fn delete_empty_directory_if_identity(path: &str, expected: FileIdentity, object: OpenedObject) -> (result: Result<
    (),
    WindowsFsError,
>)
    ensures
        is_deletion_verdict(path@, expected, true, object, result),
{
    delete_if_identity(path, expected, true, object)
}

/// Whether `result` lets an opened object be renamed.
pub open spec fn is_rename_verdict(
    source: Seq<char>,
    expected: FileIdentity,
    object: OpenedObject,
    result: Result<(), WindowsFsError>,
) -> bool {
    if object.attributes & FILE_ATTRIBUTE_REPARSE_POINT != 0 {
        result matches Err(WindowsFsError::ReparsePoint { path: p }) && p@ == source
    } else {
        is_identity_verdict(source, expected, object.identity, result)
    }
}

/// Whether an opened object may be renamed as the one that was confirmed.
pub fn rename_without_replace_if_identity(
    source: &str,
    expected: FileIdentity,
    object: OpenedObject,
) -> (result: Result<(), WindowsFsError>)
    ensures
        is_rename_verdict(source@, expected, object, result),
{
    if let Err(error) = reject_reparse(object.attributes, source) {
        return Err(error);
    }
    confirm_identity(source, expected, object.identity)
}

} // verus!
