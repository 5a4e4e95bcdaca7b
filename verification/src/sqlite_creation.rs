//! Filling a new database in one transaction.

use vstd::pervasive::unreached;
use vstd::prelude::*;
use crate::performance::{
    RunPerformanceCounters, RunPerformanceSnapshot, SqliteTransactionControl, SqliteTransactionScope,
};
use crate::search;
use crate::sqlite_database::{CreateDatabaseError, DatabaseTargetPurpose};
use crate::sqlite_error::{SqliteDriverError, SqliteRuntimeError};
use crate::sqlite_open;
use crate::sqlite_open::{next_setting, setting_failure, ConnectionSetting, OpenMode};
use crate::sqlite_plan;
use crate::sqlite_plan::{validate_command, SqliteCommand, SqliteValue};
use crate::sqlite_transaction;
use crate::sqlite_transaction::{
    execute_transaction_control, rollback_after_failure, RollbackReply,
};

verus! {

/// Where the filling of a new database stands.
#[derive(Debug, PartialEq, Eq)]
pub enum InitializationState {
    /// The page size comes before the first table and before the write-ahead log.
    SettingPageSize,
    Setting { made: usize },
    Beginning,
    Executing { command: usize },
    CheckingCommand { command: usize },
    Committing,
    CheckingCommit { failure: Option<SqliteRuntimeError> },
    RollingBack { primary: SqliteRuntimeError },
    CheckingRollback { primary: SqliteRuntimeError },
    Finished { result: Result<(), SqliteRuntimeError> },
}

#[derive(Debug, PartialEq, Eq)]
pub enum InitializationRequest<'a> {
    SetPageSize,
    Apply(ConnectionSetting),
    Control { control: SqliteTransactionControl, statement: &'static str },
    Execute { statement: &'a str, parameters: &'a Vec<SqliteValue> },
    Autocommit,
    Nothing,
}

#[derive(Debug, PartialEq, Eq)]
pub enum InitializationReply {
    Done(Result<(), SqliteDriverError>),
    Autocommit(bool),
}

/// The state before command `command`; after the last one comes the commit.
pub open spec fn started_command(commands: Seq<SqliteCommand>, command: int) -> InitializationState {
    if command < commands.len() {
        InitializationState::Executing { command: command as usize }
    } else {
        InitializationState::Committing
    }
}

impl InitializationState {
    pub open spec fn control(self) -> Option<SqliteTransactionControl> {
        match self {
            InitializationState::Beginning => Some(SqliteTransactionControl::Begin),
            InitializationState::Committing => Some(SqliteTransactionControl::Commit),
            InitializationState::RollingBack { .. } => Some(SqliteTransactionControl::Rollback),
            _ => None,
        }
    }

    pub open spec fn fits(self, commands: Seq<SqliteCommand>) -> bool {
        match self {
            InitializationState::Setting { made } => made < sqlite_open::settings(
                OpenMode::ReadWrite,
            ).len(),
            InitializationState::Executing { command } => command < commands.len(),
            InitializationState::CheckingCommand { command } => command < commands.len(),
            _ => true,
        }
    }

    pub open spec fn expects(self, reply: InitializationReply) -> bool {
        match self {
            InitializationState::CheckingCommand { .. } => reply is Autocommit,
            InitializationState::CheckingCommit { .. } => reply is Autocommit,
            InitializationState::CheckingRollback { .. } => reply is Autocommit,
            InitializationState::Finished { .. } => false,
            _ => reply is Done,
        }
    }

    /// Whether `next` comes after this state when a statement ended with `result`.
    pub open spec fn after_done(
        self,
        commands: Seq<SqliteCommand>,
        result: Result<(), SqliteDriverError>,
        cancelled: bool,
        next: InitializationState,
    ) -> bool {
        match (self, result) {
            (InitializationState::SettingPageSize, Ok(_)) => next == (InitializationState::Setting {
                made: 0,
            }),
            (InitializationState::SettingPageSize, Err(source)) => next == failed(
                SqliteRuntimeError::of_driver("设置新数据库 page_size", source, cancelled),
            ),
            (InitializationState::Setting { made }, Ok(_)) => next == (if made + 1
                < sqlite_open::settings(OpenMode::ReadWrite).len() {
                InitializationState::Setting { made: (made + 1) as usize }
            } else {
                InitializationState::Beginning
            }),
            (InitializationState::Setting { made }, Err(source)) => next == failed(
                SqliteRuntimeError::of_driver(
                    sqlite_open::setting_operation(
                        OpenMode::ReadWrite,
                        sqlite_open::settings(OpenMode::ReadWrite)[made as int],
                    ),
                    source,
                    cancelled,
                ),
            ),
            (InitializationState::Beginning, Ok(_)) => next == started_command(commands, 0),
            (InitializationState::Beginning, Err(source)) => next == failed(
                SqliteRuntimeError::of_driver("开始新数据库事务", source, cancelled),
            ),
            (InitializationState::Executing { command }, Ok(_)) => next == (
            InitializationState::CheckingCommand { command }),
            (InitializationState::Executing { .. }, Err(source)) => next == (
            InitializationState::RollingBack {
                primary: SqliteRuntimeError::of_driver("初始化新数据库", source, cancelled),
            }),
            (InitializationState::Committing, Ok(_)) => next == (InitializationState::CheckingCommit {
                failure: None,
            }),
            (InitializationState::Committing, Err(source)) => next == (
            InitializationState::CheckingCommit {
                failure: Some(SqliteRuntimeError::of_driver("提交新数据库", source, cancelled)),
            }),
            (InitializationState::RollingBack { primary }, Ok(_)) => next == (
            InitializationState::CheckingRollback { primary }),
            (InitializationState::RollingBack { primary }, Err(source)) => is_given_up(
                primary,
                RollbackReply::Failed(source),
                cancelled,
                next,
            ),
            _ => false,
        }
    }

    /// Whether `next` comes after this state when the connection said whether no
    /// transaction is open.
    pub open spec fn after_autocommit(
        self,
        commands: Seq<SqliteCommand>,
        autocommit: bool,
        cancelled: bool,
        next: InitializationState,
    ) -> bool {
        match self {
            InitializationState::CheckingCommand { command } => next == (if autocommit {
                failed(SqliteRuntimeError::Internal("初始化命令意外结束了根事务"))
            } else {
                started_command(commands, command + 1)
            }),
            InitializationState::CheckingCommit { failure: None } => next == (if autocommit {
                InitializationState::Finished { result: Ok(()) }
            } else {
                failed(SqliteRuntimeError::Internal("初始化 COMMIT 成功后连接仍非 autocommit"))
            }),
            InitializationState::CheckingCommit { failure: Some(error) } => next == (if autocommit {
                failed(error)
            } else {
                InitializationState::RollingBack { primary: error }
            }),
            InitializationState::CheckingRollback { primary } => is_given_up(
                primary,
                RollbackReply::Succeeded { autocommit },
                cancelled,
                next,
            ),
            _ => false,
        }
    }

    pub open spec fn leads_to(
        self,
        commands: Seq<SqliteCommand>,
        reply: InitializationReply,
        cancelled: bool,
        next: InitializationState,
    ) -> bool {
        match reply {
            InitializationReply::Done(result) => self.after_done(commands, result, cancelled, next),
            InitializationReply::Autocommit(autocommit) => self.after_autocommit(
                commands,
                autocommit,
                cancelled,
                next,
            ),
        }
    }
}

pub open spec fn failed(error: SqliteRuntimeError) -> InitializationState {
    InitializationState::Finished { result: Err(error) }
}

/// Whether the filling ends with `primary` after its rollback.
pub open spec fn is_given_up(
    primary: SqliteRuntimeError,
    reply: RollbackReply,
    cancelled: bool,
    next: InitializationState,
) -> bool {
    next matches InitializationState::Finished { result: Err(error) } && (
    sqlite_transaction::is_failure_after_rollback(primary, reply, cancelled, Ok(error))
        || sqlite_transaction::is_failure_after_rollback(primary, reply, cancelled, Err(error)))
}

fn give_up(primary: SqliteRuntimeError, reply: RollbackReply, cancelled: bool) -> (next:
    InitializationState)
    ensures
        is_given_up(primary, reply, cancelled, next),
{
    match rollback_after_failure(primary, reply, cancelled) {
        Ok(error) => InitializationState::Finished { result: Err(error) },
        Err(error) => InitializationState::Finished { result: Err(error) },
    }
}

fn start_command(commands: &Vec<SqliteCommand>, command: usize) -> (next: InitializationState)
    ensures
        next == started_command(commands@, command as int),
        next.fits(commands@),
{
    if command < commands.len() {
        InitializationState::Executing { command }
    } else {
        InitializationState::Committing
    }
}

/// The commands that fill a new database, at work.
#[derive(Debug, PartialEq, Eq)]
pub struct InitializationRun<'a> {
    commands: &'a Vec<SqliteCommand>,
    state: InitializationState,
}

/// The commands that are refused.
pub open spec fn faulty_commands(commands: Seq<SqliteCommand>) -> spec_fn(int) -> bool {
    |i: int| sqlite_plan::statement_fault(commands[i].sql(), commands[i].bound()) is Some
}

/// Why commands are refused: the first faulty one.
pub open spec fn commands_fault(commands: Seq<SqliteCommand>) -> Option<SqliteRuntimeError> {
    match search::first_such(faulty_commands(commands), 0, commands.len() as int) {
        Some(i) => sqlite_plan::statement_fault(commands[i].sql(), commands[i].bound()),
        None => None,
    }
}

/// Checks the commands before anything is created.
pub fn run_create_database(commands: &Vec<SqliteCommand>) -> (result: Result<(), CreateDatabaseError>)
    ensures
        result == (match commands_fault(commands@) {
            Some(error) => Err::<(), CreateDatabaseError>(CreateDatabaseError::NotCreated(error)),
            None => Ok(()),
        }),
{
    let ghost faulty = faulty_commands(commands@);
    let mut i: usize = 0;
    while i < commands.len()
        invariant
            i <= commands.len(),
            faulty == faulty_commands(commands@),
            forall|k: int| 0 <= k < i ==> !#[trigger] faulty(k),
        decreases commands.len() - i,
    {
        if let Err(error) = validate_command(&commands[i]) {
            proof {
                assert(faulty(i as int));
                search::lemma_first_found(faulty, 0, commands.len() as int, i as int);
            }
            return Err(CreateDatabaseError::NotCreated(error));
        }
        assert(!faulty(i as int));
        i += 1;
    }
    proof {
        search::lemma_first_absent(faulty, 0, commands.len() as int);
    }
    Ok(())
}

/// The failure to open the new database.
pub fn open_new_database_failure(
    purpose: DatabaseTargetPurpose,
    source: SqliteDriverError,
    cancelled: bool,
) -> (error: SqliteRuntimeError)
    ensures
        error == SqliteRuntimeError::of_driver(
            match purpose {
                DatabaseTargetPurpose::Create => "打开新数据库",
                DatabaseTargetPurpose::Snapshot => "打开快照目标数据库",
            },
            source,
            cancelled,
        ),
{
    let operation = match purpose {
        DatabaseTargetPurpose::Create => "打开新数据库",
        DatabaseTargetPurpose::Snapshot => "打开快照目标数据库",
    };
    SqliteRuntimeError::driver(operation, source, cancelled)
}

/// Gets the filling of an opened new database ready.
pub fn initialize_new_database<'a>(commands: &'a Vec<SqliteCommand>) -> (run: InitializationRun<'a>)
    ensures
        run.listed() == commands@,
        run.at() == InitializationState::SettingPageSize,
{
    InitializationRun { commands, state: InitializationState::SettingPageSize }
}

/// Whether `request` is what a state asks the connection for.
pub open spec fn is_request(
    state: InitializationState,
    commands: Seq<SqliteCommand>,
    request: InitializationRequest<'_>,
) -> bool {
    match state {
        InitializationState::SettingPageSize => request == InitializationRequest::SetPageSize,
        InitializationState::Setting { made } => request == InitializationRequest::Apply(
            sqlite_open::settings(OpenMode::ReadWrite)[made as int],
        ),
        InitializationState::Beginning => request == (InitializationRequest::Control {
            control: SqliteTransactionControl::Begin,
            statement: "BEGIN IMMEDIATE",
        }),
        InitializationState::Executing { command } => {
            &&& request matches InitializationRequest::Execute { statement, parameters }
            &&& statement@ == commands[command as int].sql()
            &&& parameters@ == commands[command as int].bound()
        },
        InitializationState::Committing => request == (InitializationRequest::Control {
            control: SqliteTransactionControl::Commit,
            statement: "COMMIT",
        }),
        InitializationState::RollingBack { .. } => request == (InitializationRequest::Control {
            control: SqliteTransactionControl::Rollback,
            statement: "ROLLBACK",
        }),
        InitializationState::Finished { .. } => request == InitializationRequest::Nothing,
        _ => request == InitializationRequest::Autocommit,
    }
}

/// The counters after a reply: only the answer to a control statement is counted.
pub open spec fn counts_after(
    before: RunPerformanceSnapshot,
    state: InitializationState,
    reply: InitializationReply,
) -> RunPerformanceSnapshot {
    match (state.control(), reply) {
        (Some(control), InitializationReply::Done(result)) => sqlite_transaction::control_counted(
            before,
            SqliteTransactionScope::DatabaseInitialization,
            control,
            result is Ok,
        ),
        _ => before,
    }
}

impl<'a> InitializationRun<'a> {
    #[verifier::type_invariant]
    spec fn is_valid(&self) -> bool {
        self.state.fits(self.commands@)
    }

    pub closed spec fn listed(&self) -> Seq<SqliteCommand> {
        self.commands@
    }

    pub closed spec fn at(&self) -> InitializationState {
        self.state
    }

    pub fn request(&self) -> (request: InitializationRequest<'_>)
        ensures
            is_request(self.at(), self.listed(), request),
    {
        proof {
            use_type_invariant(self);
        }
        match &self.state {
            InitializationState::SettingPageSize => InitializationRequest::SetPageSize,
            InitializationState::Setting { made } => match next_setting(OpenMode::ReadWrite, *made) {
                Some(setting) => InitializationRequest::Apply(setting),
                None => unreached(),
            },
            InitializationState::Beginning => InitializationRequest::Control {
                control: SqliteTransactionControl::Begin,
                statement: "BEGIN IMMEDIATE",
            },
            InitializationState::Executing { command } => InitializationRequest::Execute {
                statement: self.commands[*command].statement(),
                parameters: self.commands[*command].parameters(),
            },
            InitializationState::Committing => InitializationRequest::Control {
                control: SqliteTransactionControl::Commit,
                statement: "COMMIT",
            },
            InitializationState::RollingBack { .. } => InitializationRequest::Control {
                control: SqliteTransactionControl::Rollback,
                statement: "ROLLBACK",
            },
            InitializationState::CheckingCommand { .. } => InitializationRequest::Autocommit,
            InitializationState::CheckingCommit { .. } => InitializationRequest::Autocommit,
            InitializationState::CheckingRollback { .. } => InitializationRequest::Autocommit,
            InitializationState::Finished { .. } => InitializationRequest::Nothing,
        }
    }

    /// Goes on with the connection's answer, and counts the control statements.
    pub fn advance(
        self,
        reply: InitializationReply,
        wait_cancelled: bool,
        performance: &mut RunPerformanceCounters,
    ) -> (next: Self)
        requires
            self.at().expects(reply),
        ensures
            next.listed() == self.listed(),
            self.at().leads_to(self.listed(), reply, wait_cancelled, next.at()),
            final(performance)@ == counts_after(old(performance)@, self.at(), reply),
    {
        proof {
            use_type_invariant(&self);
        }
        let commands = self.commands;
        assert(commands.len() == commands@.len());
        let state = match (self.state, reply) {
            (InitializationState::SettingPageSize, InitializationReply::Done(outcome)) => match outcome {
                Ok(()) => InitializationState::Setting { made: 0 },
                Err(source) => InitializationState::Finished {
                    result: Err(
                        SqliteRuntimeError::driver(
                            "设置新数据库 page_size",
                            source,
                            wait_cancelled,
                        ),
                    ),
                },
            },
            (InitializationState::Setting { made }, InitializationReply::Done(outcome)) => match outcome {
                Ok(()) => match next_setting(OpenMode::ReadWrite, made + 1) {
                    Some(_) => InitializationState::Setting { made: made + 1 },
                    None => InitializationState::Beginning,
                },
                Err(source) => match next_setting(OpenMode::ReadWrite, made) {
                    Some(setting) => InitializationState::Finished {
                        result: Err(
                            setting_failure(OpenMode::ReadWrite, setting, source, wait_cancelled),
                        ),
                    },
                    None => unreached(),
                },
            },
            (InitializationState::Beginning, InitializationReply::Done(outcome)) => {
                match execute_transaction_control(
                    performance,
                    SqliteTransactionScope::DatabaseInitialization,
                    SqliteTransactionControl::Begin,
                    outcome,
                ) {
                    Ok(()) => start_command(commands, 0),
                    Err(source) => InitializationState::Finished {
                        result: Err(
                            SqliteRuntimeError::driver("开始新数据库事务", source, wait_cancelled),
                        ),
                    },
                }
            },
            (InitializationState::Executing { command }, InitializationReply::Done(outcome)) => match outcome {
                Ok(()) => InitializationState::CheckingCommand { command },
                Err(source) => InitializationState::RollingBack {
                    primary: SqliteRuntimeError::driver("初始化新数据库", source, wait_cancelled),
                },
            },
            (
                InitializationState::CheckingCommand { command },
                InitializationReply::Autocommit(autocommit),
            ) => {
                if autocommit {
                    InitializationState::Finished {
                        result: Err(SqliteRuntimeError::Internal("初始化命令意外结束了根事务")),
                    }
                } else {
                    start_command(commands, command + 1)
                }
            },
            (InitializationState::Committing, InitializationReply::Done(outcome)) => {
                match execute_transaction_control(
                    performance,
                    SqliteTransactionScope::DatabaseInitialization,
                    SqliteTransactionControl::Commit,
                    outcome,
                ) {
                    Ok(()) => InitializationState::CheckingCommit { failure: None },
                    Err(source) => InitializationState::CheckingCommit {
                        failure: Some(
                            SqliteRuntimeError::driver("提交新数据库", source, wait_cancelled),
                        ),
                    },
                }
            },
            (
                InitializationState::CheckingCommit { failure },
                InitializationReply::Autocommit(autocommit),
            ) => match failure {
                None => {
                    if autocommit {
                        InitializationState::Finished { result: Ok(()) }
                    } else {
                        InitializationState::Finished {
                            result: Err(
                                SqliteRuntimeError::Internal(
                                    "初始化 COMMIT 成功后连接仍非 autocommit",
                                ),
                            ),
                        }
                    }
                },
                Some(error) => {
                    if autocommit {
                        InitializationState::Finished { result: Err(error) }
                    } else {
                        InitializationState::RollingBack { primary: error }
                    }
                },
            },
            (InitializationState::RollingBack { primary }, InitializationReply::Done(outcome)) => {
                match execute_transaction_control(
                    performance,
                    SqliteTransactionScope::DatabaseInitialization,
                    SqliteTransactionControl::Rollback,
                    outcome,
                ) {
                    Ok(()) => InitializationState::CheckingRollback { primary },
                    Err(source) => give_up(primary, RollbackReply::Failed(source), wait_cancelled),
                }
            },
            (
                InitializationState::CheckingRollback { primary },
                InitializationReply::Autocommit(autocommit),
            ) => give_up(primary, RollbackReply::Succeeded { autocommit }, wait_cancelled),
            _ => unreached(),
        };
        InitializationRun { commands, state }
    }

    pub fn into_result(self) -> (result: Result<(), SqliteRuntimeError>)
        requires
            self.at() is Finished,
        ensures
            self.at() == (InitializationState::Finished { result }),
    {
        match self.state {
            InitializationState::Finished { result } => result,
            _ => unreached(),
        }
    }
}

/// A new database is filled only by a commit that succeeded and left no transaction open,
/// after all commands.
pub proof fn filling_is_a_confirmed_commit(
    state: InitializationState,
    commands: Seq<SqliteCommand>,
    reply: InitializationReply,
    cancelled: bool,
    next: InitializationState,
)
    requires
        state.expects(reply),
        state.leads_to(commands, reply, cancelled, next),
    ensures
        next == (InitializationState::Finished { result: Ok(()) }) ==> state == (
        InitializationState::CheckingCommit { failure: None }) && reply
            == InitializationReply::Autocommit(true),
        next == (InitializationState::CheckingCommit { failure: None }) ==> state
            == InitializationState::Committing && reply matches InitializationReply::Done(Ok(_)),
        next == InitializationState::Committing ==> match state {
            InitializationState::Beginning => commands.len() == 0,
            InitializationState::CheckingCommand { command } => command + 1 >= commands.len() && reply
                == InitializationReply::Autocommit(false),
            _ => false,
        },
{
}

} // verus!
