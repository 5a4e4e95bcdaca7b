//! Opening databases that exist, and the policy of every connection.

use vstd::prelude::*;
use vstd::string::*;
use crate::diagnostic::{IoError, SafeIoKind};
use crate::sqlite_error::{SqliteDriverError, SqliteRuntimeError};
use crate::text::characters;

verus! {

/// The page size of a new database. Large pages keep indexes of long keys shallow.
pub const NEW_DATABASE_PAGE_SIZE_BYTES: i64 = 65_536;

/// The target of a connection's page cache: negative, so in KiB. It is a target, not an
/// allocation.
pub const CONNECTION_CACHE_SIZE_KIB: i64 = -3_145_728;

/// Why a database that should exist cannot be opened.
#[derive(Debug, PartialEq, Eq)]
pub enum ExistingFileError {
    NotFound,
    InvalidTarget,
    Io(IoError),
}

#[derive(Debug, PartialEq, Eq)]
pub enum ExistingFileErrorOrRuntime {
    Existing(ExistingFileError),
    Runtime(SqliteRuntimeError),
}

/// What is known of a database before it is opened.
pub open spec fn preflight(is_file: Result<bool, IoError>) -> Result<(), ExistingFileError> {
    match is_file {
        Ok(true) => Ok(()),
        Ok(false) => Err(ExistingFileError::InvalidTarget),
        Err(error) => if error.kind == SafeIoKind::NotFound {
            Err(ExistingFileError::NotFound)
        } else {
            Err(ExistingFileError::Io(error))
        },
    }
}

/// What is at the path: `Ok(true)` is an ordinary file.
pub fn preflight_existing_file(is_file: Result<bool, IoError>) -> (result: Result<
    (),
    ExistingFileError,
>)
    ensures
        result == preflight(is_file),
{
    match is_file {
        Ok(true) => Ok(()),
        Ok(false) => Err(ExistingFileError::InvalidTarget),
        Err(error) => {
            if error.kind == SafeIoKind::NotFound {
                Err(ExistingFileError::NotFound)
            } else {
                Err(ExistingFileError::Io(error))
            }
        },
    }
}

#[derive(Clone, Copy, Debug, PartialEq, Eq, Structural)]
pub enum OpenMode {
    ReadOnly,
    ReadWrite,
}

/// Why a database could not be opened.
pub open spec fn failure_to_open(
    mode: OpenMode,
    file_is_gone: bool,
    source: SqliteDriverError,
    wait_cancelled: bool,
) -> ExistingFileErrorOrRuntime {
    if file_is_gone {
        ExistingFileErrorOrRuntime::Existing(ExistingFileError::NotFound)
    } else {
        ExistingFileErrorOrRuntime::Runtime(
            SqliteRuntimeError::of_driver(
                match mode {
                    OpenMode::ReadOnly => "以只读方式打开数据库",
                    OpenMode::ReadWrite => "以读写方式打开数据库",
                },
                source,
                wait_cancelled,
            ),
        )
    }
}

/// The failure of the open call itself. A file that has meanwhile gone is not found.
pub fn open_failure(
    mode: OpenMode,
    file_is_gone: bool,
    source: SqliteDriverError,
    wait_cancelled: bool,
) -> (error: ExistingFileErrorOrRuntime)
    ensures
        error == failure_to_open(mode, file_is_gone, source, wait_cancelled),
{
    if file_is_gone {
        return ExistingFileErrorOrRuntime::Existing(ExistingFileError::NotFound);
    }
    let operation = match mode {
        OpenMode::ReadOnly => "以只读方式打开数据库",
        OpenMode::ReadWrite => "以读写方式打开数据库",
    };
    ExistingFileErrorOrRuntime::Runtime(
        SqliteRuntimeError::driver(operation, source, wait_cancelled),
    )
}

/// A setting of a connection.
#[derive(Clone, Copy, Debug, PartialEq, Eq, Structural)]
pub enum ConnectionSetting {
    BusyHandler,
    CacheSize,
    TempStoreInMemory,
    ForeignKeys,
    QueryOnly,
    WriteAheadLog,
    FullSynchronous,
}

/// The settings of a connection, in the order in which they are made.
pub open spec fn settings(mode: OpenMode) -> Seq<ConnectionSetting> {
    match mode {
        OpenMode::ReadOnly => seq![
            ConnectionSetting::BusyHandler,
            ConnectionSetting::CacheSize,
            ConnectionSetting::TempStoreInMemory,
            ConnectionSetting::ForeignKeys,
            ConnectionSetting::QueryOnly,
            ConnectionSetting::FullSynchronous,
        ],
        OpenMode::ReadWrite => seq![
            ConnectionSetting::BusyHandler,
            ConnectionSetting::CacheSize,
            ConnectionSetting::TempStoreInMemory,
            ConnectionSetting::ForeignKeys,
            ConnectionSetting::WriteAheadLog,
            ConnectionSetting::FullSynchronous,
        ],
    }
}

/// The setting to make after `made` of them.
pub fn next_setting(mode: OpenMode, made: usize) -> (setting: Option<ConnectionSetting>)
    ensures
        setting == (if made < settings(mode).len() {
            Some(settings(mode)[made as int])
        } else {
            None
        }),
{
    match made {
        0 => Some(ConnectionSetting::BusyHandler),
        1 => Some(ConnectionSetting::CacheSize),
        2 => Some(ConnectionSetting::TempStoreInMemory),
        3 => Some(ConnectionSetting::ForeignKeys),
        4 => Some(
            match mode {
                OpenMode::ReadOnly => ConnectionSetting::QueryOnly,
                OpenMode::ReadWrite => ConnectionSetting::WriteAheadLog,
            },
        ),
        5 => Some(ConnectionSetting::FullSynchronous),
        _ => None,
    }
}

pub open spec fn setting_operation(mode: OpenMode, setting: ConnectionSetting) -> &'static str {
    match (mode, setting) {
        (_, ConnectionSetting::BusyHandler) => "设置 SQLite 繁忙等待处理器",
        (OpenMode::ReadWrite, _) => "应用 ATT SQLite 读写策略",
        (OpenMode::ReadOnly, ConnectionSetting::CacheSize) => "应用 ATT SQLite 连接内存策略",
        (OpenMode::ReadOnly, ConnectionSetting::TempStoreInMemory) => "应用 ATT SQLite 连接内存策略",
        (OpenMode::ReadOnly, ConnectionSetting::ForeignKeys) => "启用只读连接外键约束",
        (OpenMode::ReadOnly, ConnectionSetting::FullSynchronous) => "设置只读 synchronous",
        (OpenMode::ReadOnly, _) => "设置只读连接",
    }
}

/// The failure of a setting.
pub fn setting_failure(
    mode: OpenMode,
    setting: ConnectionSetting,
    source: SqliteDriverError,
    wait_cancelled: bool,
) -> (error: SqliteRuntimeError)
    ensures
        error == SqliteRuntimeError::of_driver(
            setting_operation(mode, setting),
            source,
            wait_cancelled,
        ),
{
    let operation = match (mode, setting) {
        (_, ConnectionSetting::BusyHandler) => "设置 SQLite 繁忙等待处理器",
        (OpenMode::ReadWrite, _) => "应用 ATT SQLite 读写策略",
        (OpenMode::ReadOnly, ConnectionSetting::CacheSize) => "应用 ATT SQLite 连接内存策略",
        (OpenMode::ReadOnly, ConnectionSetting::TempStoreInMemory) => "应用 ATT SQLite 连接内存策略",
        (OpenMode::ReadOnly, ConnectionSetting::ForeignKeys) => "启用只读连接外键约束",
        (OpenMode::ReadOnly, ConnectionSetting::FullSynchronous) => "设置只读 synchronous",
        (OpenMode::ReadOnly, _) => "设置只读连接",
    };
    SqliteRuntimeError::driver(operation, source, wait_cancelled)
}

/// The same letter, whatever its case, for the letters of ASCII.
pub open spec fn same_letter(left: char, right: char) -> bool {
    left == right || (('a' <= left <= 'z') && left as int - right as int == 32) || (('a' <= right
        <= 'z') && right as int - left as int == 32)
}

fn is_same_letter(left: char, right: char) -> (same: bool)
    ensures
        same == same_letter(left, right),
{
    if left == right {
        return true;
    }
    let l: u32 = left as u32;
    let r: u32 = right as u32;
    ('a' <= left && left <= 'z' && l >= r && l - r == 32) || ('a' <= right && right <= 'z' && r >= l && r
        - l == 32)
}

/// Whether a journal mode is the write-ahead log.
pub open spec fn is_write_ahead_log(mode: Seq<char>) -> bool {
    mode.len() == 3 && same_letter(mode[0], 'w') && same_letter(mode[1], 'a') && same_letter(
        mode[2],
        'l',
    )
}

/// What to do for the write-ahead log.
#[derive(Debug, PartialEq, Eq)]
pub enum JournalStep {
    /// Switch the journal mode.
    Switch,
    /// Wait for the poll interval and start over.
    WaitAndStartOver,
    Finished(Result<(), SqliteDriverError>),
}

pub open spec fn journal_attempt_ends(result: Result<(), SqliteDriverError>, cancelled: bool) -> JournalStep {
    match result {
        Err(source) => if source.is_busy() && !cancelled {
            JournalStep::WaitAndStartOver
        } else {
            JournalStep::Finished(Err(source))
        },
        Ok(()) => JournalStep::Finished(Ok(())),
    }
}

/// After the journal mode was read. A database that already has a writer answers with
/// "busy" without calling the busy handler, so the wait is made here.
pub fn after_reading_journal_mode(mode: Result<String, SqliteDriverError>, cancelled: bool) -> (step:
    JournalStep)
    ensures
        step == (match mode {
            Ok(mode) => if is_write_ahead_log(mode@) {
                JournalStep::Finished(Ok(()))
            } else {
                JournalStep::Switch
            },
            Err(source) => journal_attempt_ends(Err(source), cancelled),
        }),
{
    match mode {
        Ok(mode) => {
            let letters = characters(mode.as_str());
            if letters.len() == 3 && is_same_letter(letters[0], 'w') && is_same_letter(letters[1], 'a')
                && is_same_letter(letters[2], 'l') {
                JournalStep::Finished(Ok(()))
            } else {
                JournalStep::Switch
            }
        },
        Err(source) => after_switching_journal_mode(Err(source), cancelled),
    }
}

/// After the journal mode was switched.
pub fn after_switching_journal_mode(result: Result<(), SqliteDriverError>, cancelled: bool) -> (step:
    JournalStep)
    ensures
        step == journal_attempt_ends(result, cancelled),
{
    match result {
        Err(source) => {
            if source.busy() && !cancelled {
                JournalStep::WaitAndStartOver
            } else {
                JournalStep::Finished(Err(source))
            }
        },
        Ok(()) => JournalStep::Finished(Ok(())),
    }
}

/// What a query of an existing database fails with.
#[derive(Debug, PartialEq, Eq)]
pub enum QueryExistingDatabaseError {
    NotFound,
    QueryFailed(SqliteRuntimeError),
}

/// How the failure to open a database is told: `None` is a database that does not exist.
pub open spec fn open_problem(
    path: Seq<char>,
    error: ExistingFileErrorOrRuntime,
    told: Option<SqliteRuntimeError>,
) -> bool {
    match error {
        ExistingFileErrorOrRuntime::Existing(ExistingFileError::NotFound) => told is None,
        ExistingFileErrorOrRuntime::Existing(ExistingFileError::InvalidTarget) => told matches Some(
            SqliteRuntimeError::InvalidTarget { path: p },
        ) && p@ == path,
        ExistingFileErrorOrRuntime::Existing(ExistingFileError::Io(source)) => told matches Some(
            SqliteRuntimeError::Io { operation, path: p, source: s },
        ) && operation == "检查数据库" && p@ == path && s == source,
        ExistingFileErrorOrRuntime::Runtime(source) => told == Some(source),
    }
}

pub fn told_open_problem(path: &str, error: ExistingFileErrorOrRuntime) -> (told: Option<
    SqliteRuntimeError,
>)
    ensures
        open_problem(path@, error, told),
{
    match error {
        ExistingFileErrorOrRuntime::Existing(ExistingFileError::NotFound) => None,
        ExistingFileErrorOrRuntime::Existing(ExistingFileError::InvalidTarget) => Some(
            SqliteRuntimeError::InvalidTarget { path: String::from_str(path) },
        ),
        ExistingFileErrorOrRuntime::Existing(ExistingFileError::Io(source)) => Some(
            SqliteRuntimeError::io("检查数据库", path, source),
        ),
        ExistingFileErrorOrRuntime::Runtime(source) => Some(source),
    }
}

/// What a query reports when its database cannot be opened.
pub fn map_query_open_error(path: &str, error: ExistingFileErrorOrRuntime) -> (mapped:
    QueryExistingDatabaseError)
    ensures
        match mapped {
            QueryExistingDatabaseError::NotFound => open_problem(path@, error, None),
            QueryExistingDatabaseError::QueryFailed(source) => open_problem(
                path@,
                error,
                Some(source),
            ),
        },
{
    match told_open_problem(path, error) {
        None => QueryExistingDatabaseError::NotFound,
        Some(source) => QueryExistingDatabaseError::QueryFailed(source),
    }
}

} // verus!
