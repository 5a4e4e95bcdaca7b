//! Copying a database into a new one by an online backup.

use vstd::pervasive::unreached;
use vstd::prelude::*;
use crate::sqlite_creation::open_new_database_failure;
use crate::sqlite_database::DatabaseTargetPurpose;
use crate::sqlite_error::{SqliteDriverError, SqliteRuntimeError};
use crate::sqlite_open;
use crate::sqlite_open::{next_setting, setting_failure, ConnectionSetting, OpenMode};

verus! {

/// One step of an online backup.
#[derive(Clone, Copy, Debug, PartialEq, Eq, Structural)]
pub enum BackupStep {
    Done,
    More,
    Busy,
    Locked,
    Unknown,
}

/// How many pages a step of an online backup copies.
pub const SQLITE_BACKUP_PAGES_PER_STEP: i32 = 256;

#[derive(Debug, PartialEq, Eq)]
pub enum BackupAction {
    Step,
    SleepAndStep,
    Finished(Result<(), SqliteRuntimeError>),
}

/// Whether to make the next step of an online backup at all.
pub fn before_backup_step(cancelled: bool) -> (action: BackupAction)
    ensures
        action == (if cancelled {
            BackupAction::Finished(
                Err(SqliteRuntimeError::Cancelled { operation: "执行 online backup" }),
            )
        } else {
            BackupAction::Step
        }),
{
    if cancelled {
        BackupAction::Finished(Err(SqliteRuntimeError::Cancelled { operation: "执行 online backup" }))
    } else {
        BackupAction::Step
    }
}

/// What follows one step of a backup.
pub open spec fn backup_action(
    step: Result<BackupStep, SqliteDriverError>,
    cancelled: bool,
) -> BackupAction {
    match step {
        Err(source) => BackupAction::Finished(
            Err(SqliteRuntimeError::of_driver("执行 online backup", source, cancelled)),
        ),
        Ok(BackupStep::Done) => BackupAction::Finished(Ok(())),
        Ok(BackupStep::More) => BackupAction::Step,
        Ok(BackupStep::Busy) => BackupAction::SleepAndStep,
        Ok(BackupStep::Locked) => BackupAction::SleepAndStep,
        Ok(BackupStep::Unknown) => BackupAction::Finished(
            Err(SqliteRuntimeError::BackupIncomplete("未知状态")),
        ),
    }
}

/// What follows from a step of an online backup.
pub fn after_backup_step(step: Result<BackupStep, SqliteDriverError>, cancelled: bool) -> (action:
    BackupAction)
    ensures
        action == backup_action(step, cancelled),
{
    match step {
        Err(source) => BackupAction::Finished(
            Err(SqliteRuntimeError::driver("执行 online backup", source, cancelled)),
        ),
        Ok(BackupStep::Done) => BackupAction::Finished(Ok(())),
        Ok(BackupStep::More) => BackupAction::Step,
        Ok(BackupStep::Busy) => BackupAction::SleepAndStep,
        Ok(BackupStep::Locked) => BackupAction::SleepAndStep,
        Ok(BackupStep::Unknown) => BackupAction::Finished(
            Err(SqliteRuntimeError::BackupIncomplete("未知状态")),
        ),
    }
}

/// A part of a copy that failed before or after its pages were copied.
#[derive(Clone, Copy, Debug, PartialEq, Eq, Structural)]
pub enum CopyPart {
    BusyHandler,
    MemoryPolicy,
    Backup,
}

/// The failure of a part of a copy.
pub open spec fn failure_of(part: CopyPart, source: SqliteDriverError, cancelled: bool) -> SqliteRuntimeError {
    SqliteRuntimeError::of_driver(
        match part {
            CopyPart::BusyHandler => "设置快照目标繁忙等待处理器",
            CopyPart::MemoryPolicy => "应用 ATT SQLite 连接内存策略",
            CopyPart::Backup => "建立 online backup",
        },
        source,
        cancelled,
    )
}

/// The failure of a part of a copy.
pub fn copy_failure(part: CopyPart, source: SqliteDriverError, cancelled: bool) -> (error:
    SqliteRuntimeError)
    ensures
        error == failure_of(part, source, cancelled),
{
    let operation = match part {
        CopyPart::BusyHandler => "设置快照目标繁忙等待处理器",
        CopyPart::MemoryPolicy => "应用 ATT SQLite 连接内存策略",
        CopyPart::Backup => "建立 online backup",
    };
    SqliteRuntimeError::driver(operation, source, cancelled)
}

/// Where a copy stands.
#[derive(Debug, PartialEq, Eq)]
pub enum CopyState {
    /// The new file is being opened as a database.
    Opening,
    SettingBusyHandler,
    /// The memory settings come before the copy.
    SettingMemory { made: usize },
    StartingBackup,
    /// Before each step it is asked whether to go on.
    Asking,
    Stepping,
    Sleeping,
    /// The other settings come after it: the copy takes its page size from the source, and
    /// a write-ahead log would fix another one.
    Setting { made: usize },
    Finished { result: Result<(), SqliteRuntimeError> },
}

#[derive(Debug, PartialEq, Eq)]
pub enum CopyRequest {
    Open,
    SetBusyHandler,
    Apply(ConnectionSetting),
    StartBackup,
    AskCancellation,
    Step { pages: i32 },
    /// Sleep for the poll interval.
    Sleep,
    Nothing,
}

#[derive(Debug, PartialEq, Eq)]
pub enum CopyReply {
    Done(Result<(), SqliteDriverError>),
    Cancellation(bool),
    Stepped(Result<BackupStep, SqliteDriverError>),
    Slept,
}

/// The memory settings, in the order in which they are made.
pub open spec fn memory_settings() -> Seq<ConnectionSetting> {
    seq![ConnectionSetting::CacheSize, ConnectionSetting::TempStoreInMemory]
}

impl CopyState {
    pub open spec fn fits(self) -> bool {
        match self {
            CopyState::SettingMemory { made } => made < memory_settings().len(),
            CopyState::Setting { made } => made < sqlite_open::settings(OpenMode::ReadWrite).len(),
            _ => true,
        }
    }

    pub open spec fn expects(self, reply: CopyReply) -> bool {
        match self {
            CopyState::Asking => reply is Cancellation,
            CopyState::Stepping => reply is Stepped,
            CopyState::Sleeping => reply is Slept,
            CopyState::Finished { .. } => false,
            _ => reply is Done,
        }
    }

    /// The state after this one when a part of the work ended with `result`.
    pub open spec fn after_done(self, result: Result<(), SqliteDriverError>, cancelled: bool) -> CopyState {
        match result {
            Ok(_) => match self {
                CopyState::Opening => CopyState::SettingBusyHandler,
                CopyState::SettingBusyHandler => CopyState::SettingMemory { made: 0 },
                CopyState::SettingMemory { made } => if made + 1 < memory_settings().len() {
                    CopyState::SettingMemory { made: (made + 1) as usize }
                } else {
                    CopyState::StartingBackup
                },
                CopyState::StartingBackup => CopyState::Asking,
                CopyState::Setting { made } => if made + 1 < sqlite_open::settings(
                    OpenMode::ReadWrite,
                ).len() {
                    CopyState::Setting { made: (made + 1) as usize }
                } else {
                    CopyState::Finished { result: Ok(()) }
                },
                other => other,
            },
            Err(source) => {
                let operation = match self {
                    CopyState::Opening => "打开快照目标数据库",
                    CopyState::SettingBusyHandler => "设置快照目标繁忙等待处理器",
                    CopyState::SettingMemory { .. } => "应用 ATT SQLite 连接内存策略",
                    CopyState::StartingBackup => "建立 online backup",
                    CopyState::Setting { made } => sqlite_open::setting_operation(
                        OpenMode::ReadWrite,
                        sqlite_open::settings(OpenMode::ReadWrite)[made as int],
                    ),
                    _ => "",
                };
                CopyState::Finished {
                    result: Err(SqliteRuntimeError::of_driver(operation, source, cancelled)),
                }
            },
        }
    }

    /// The state after this one.
    pub open spec fn after(self, reply: CopyReply, cancelled: bool) -> CopyState {
        match reply {
            CopyReply::Done(result) => self.after_done(result, cancelled),
            CopyReply::Cancellation(requested) => if requested {
                CopyState::Finished {
                    result: Err(SqliteRuntimeError::Cancelled { operation: "执行 online backup" }),
                }
            } else {
                CopyState::Stepping
            },
            CopyReply::Stepped(Ok(BackupStep::Done)) => CopyState::Setting { made: 0 },
            CopyReply::Stepped(Ok(BackupStep::More)) => CopyState::Asking,
            CopyReply::Stepped(Ok(BackupStep::Busy)) => CopyState::Sleeping,
            CopyReply::Stepped(Ok(BackupStep::Locked)) => CopyState::Sleeping,
            CopyReply::Stepped(Ok(BackupStep::Unknown)) => CopyState::Finished {
                result: Err(SqliteRuntimeError::BackupIncomplete("未知状态")),
            },
            CopyReply::Stepped(Err(source)) => CopyState::Finished {
                result: Err(
                    SqliteRuntimeError::of_driver("执行 online backup", source, cancelled),
                ),
            },
            CopyReply::Slept => CopyState::Asking,
        }
    }
}

/// A copy at work.
#[derive(Debug, PartialEq, Eq)]
pub struct CopyRun {
    state: CopyState,
}

fn finished(action: BackupAction) -> (state: CopyState)
    ensures
        state == (match action {
            BackupAction::Step => CopyState::Asking,
            BackupAction::SleepAndStep => CopyState::Sleeping,
            BackupAction::Finished(Ok(_)) => CopyState::Setting { made: 0 },
            BackupAction::Finished(Err(error)) => CopyState::Finished { result: Err(error) },
        }),
{
    match action {
        BackupAction::Step => CopyState::Asking,
        BackupAction::SleepAndStep => CopyState::Sleeping,
        BackupAction::Finished(Ok(())) => CopyState::Setting { made: 0 },
        BackupAction::Finished(Err(error)) => CopyState::Finished { result: Err(error) },
    }
}

fn after_success(state: CopyState) -> (next: CopyState)
    requires
        state.fits(),
        state.expects(CopyReply::Done(Ok(()))),
    ensures
        next == state.after_done(Ok(()), false),
        next == state.after_done(Ok(()), true),
        next.fits(),
{
    match state {
        CopyState::Opening => CopyState::SettingBusyHandler,
        CopyState::SettingBusyHandler => CopyState::SettingMemory { made: 0 },
        CopyState::SettingMemory { made } => {
            if made == 0 {
                CopyState::SettingMemory { made: 1 }
            } else {
                CopyState::StartingBackup
            }
        },
        CopyState::StartingBackup => CopyState::Asking,
        CopyState::Setting { made } => match next_setting(OpenMode::ReadWrite, made + 1) {
            Some(_) => CopyState::Setting { made: made + 1 },
            None => CopyState::Finished { result: Ok(()) },
        },
        _ => unreached(),
    }
}

fn after_failure(state: CopyState, source: SqliteDriverError, cancelled: bool) -> (next: CopyState)
    requires
        state.fits(),
        state.expects(CopyReply::Done(Err(source))),
    ensures
        next == state.after_done(Err(source), cancelled),
        next.fits(),
{
    let error = match state {
        CopyState::Opening => open_new_database_failure(
            DatabaseTargetPurpose::Snapshot,
            source,
            cancelled,
        ),
        CopyState::SettingBusyHandler => copy_failure(CopyPart::BusyHandler, source, cancelled),
        CopyState::SettingMemory { .. } => copy_failure(CopyPart::MemoryPolicy, source, cancelled),
        CopyState::StartingBackup => copy_failure(CopyPart::Backup, source, cancelled),
        CopyState::Setting { made } => match next_setting(OpenMode::ReadWrite, made) {
            Some(setting) => setting_failure(OpenMode::ReadWrite, setting, source, cancelled),
            None => unreached(),
        },
        _ => unreached(),
    };
    CopyState::Finished { result: Err(error) }
}

/// What a copy asks for.
pub open spec fn request_at(state: CopyState) -> CopyRequest {
    match state {
        CopyState::Opening => CopyRequest::Open,
        CopyState::SettingBusyHandler => CopyRequest::SetBusyHandler,
        CopyState::SettingMemory { made } => CopyRequest::Apply(memory_settings()[made as int]),
        CopyState::StartingBackup => CopyRequest::StartBackup,
        CopyState::Asking => CopyRequest::AskCancellation,
        CopyState::Stepping => CopyRequest::Step { pages: SQLITE_BACKUP_PAGES_PER_STEP },
        CopyState::Sleeping => CopyRequest::Sleep,
        CopyState::Setting { made } => CopyRequest::Apply(
            sqlite_open::settings(OpenMode::ReadWrite)[made as int],
        ),
        CopyState::Finished { .. } => CopyRequest::Nothing,
    }
}

impl CopyRun {
    #[verifier::type_invariant]
    spec fn is_valid(&self) -> bool {
        self.state.fits()
    }

    pub closed spec fn at(&self) -> CopyState {
        self.state
    }

    pub fn new() -> (run: Self)
        ensures
            run.at() == CopyState::Opening,
    {
        CopyRun { state: CopyState::Opening }
    }

    /// What to do now.
    pub fn request(&self) -> (request: CopyRequest)
        ensures
            request == request_at(self.at()),
    {
        proof {
            use_type_invariant(self);
        }
        match &self.state {
            CopyState::Opening => CopyRequest::Open,
            CopyState::SettingBusyHandler => CopyRequest::SetBusyHandler,
            CopyState::SettingMemory { made } => CopyRequest::Apply(
                if *made == 0 {
                    ConnectionSetting::CacheSize
                } else {
                    ConnectionSetting::TempStoreInMemory
                },
            ),
            CopyState::StartingBackup => CopyRequest::StartBackup,
            CopyState::Asking => CopyRequest::AskCancellation,
            CopyState::Stepping => CopyRequest::Step { pages: SQLITE_BACKUP_PAGES_PER_STEP },
            CopyState::Sleeping => CopyRequest::Sleep,
            CopyState::Setting { made } => match next_setting(OpenMode::ReadWrite, *made) {
                Some(setting) => CopyRequest::Apply(setting),
                None => unreached(),
            },
            CopyState::Finished { .. } => CopyRequest::Nothing,
        }
    }

    /// Goes on with what came of the request.
    pub fn advance(self, reply: CopyReply, wait_cancelled: bool) -> (next: Self)
        requires
            self.at().expects(reply),
        ensures
            next.at() == self.at().after(reply, wait_cancelled),
    {
        proof {
            use_type_invariant(&self);
        }
        let state = match reply {
            CopyReply::Done(Ok(())) => after_success(self.state),
            CopyReply::Done(Err(source)) => after_failure(self.state, source, wait_cancelled),
            CopyReply::Cancellation(requested) => match before_backup_step(requested) {
                BackupAction::Finished(result) => CopyState::Finished { result },
                _ => CopyState::Stepping,
            },
            CopyReply::Stepped(step) => finished(after_backup_step(step, wait_cancelled)),
            CopyReply::Slept => CopyState::Asking,
        };
        CopyRun { state }
    }

    pub fn into_result(self) -> (result: Result<(), SqliteRuntimeError>)
        requires
            self.at() is Finished,
        ensures
            self.at() == (CopyState::Finished { result }),
    {
        match self.state {
            CopyState::Finished { result } => result,
            _ => unreached(),
        }
    }
}

/// The write-ahead log and the settings around it are made only once the whole source has
/// been copied.
pub proof fn settings_come_after_the_copy(state: CopyState, reply: CopyReply, cancelled: bool)
    requires
        state.fits(),
        state.expects(reply),
        !(state is Setting),
        state.after(reply, cancelled) is Setting,
    ensures
        state is Stepping,
        reply == CopyReply::Stepped(Ok(BackupStep::Done)),
        state.after(reply, cancelled) == (CopyState::Setting { made: 0 }),
{
}

/// A copy counts as made only when every setting behind it was made as well.
pub proof fn copies_end_with_the_last_setting(state: CopyState, reply: CopyReply, cancelled: bool)
    requires
        state.fits(),
        state.expects(reply),
        state.after(reply, cancelled) == (CopyState::Finished { result: Ok(()) }),
    ensures
        reply matches CopyReply::Done(Ok(_)),
        state matches CopyState::Setting { made } && made + 1 == sqlite_open::settings(
            OpenMode::ReadWrite,
        ).len(),
{
}

/// No step of a copy is made without asking whether to go on.
pub proof fn steps_follow_a_question(state: CopyState, reply: CopyReply, cancelled: bool)
    requires
        state.fits(),
        state.expects(reply),
        state.after(reply, cancelled) is Stepping,
    ensures
        state is Asking,
        reply == CopyReply::Cancellation(false),
{
}

} // verus!
