//! How the SQLite storage can fail, and how each failure is reported.

use vstd::prelude::*;
use vstd::string::*;
use crate::diagnostic;
use crate::diagnostic::{
    copied_identifier, identifier_of, Diagnostic, DiagnosticReport, IoError, IoFailure,
    RelatedFailure, RelatedFailureRelation, RuntimeComponent, RuntimeIssue, RuntimeOperation,
    SafeIdentifier, SafePath, SqliteDiagnosticContext, SqliteDiagnosticStage, SqliteDriverFailure,
    SqliteDriverKind, SqliteIssue, SqliteOperation, SqliteProblem, SqliteTransactionState,
    StateEffect,
};
use crate::text;
use crate::text::push_decimal;
use crate::windows::WindowsFsError;

verus! {

/// The primary code of a database that another connection has locked.
pub const SQLITE_BUSY: i32 = 5;

/// The primary code of a table that is locked within the same connection.
pub const SQLITE_LOCKED: i32 = 6;

/// What the driver failed with.
#[derive(Debug, PartialEq, Eq)]
pub enum SqliteDriverCause {
    SqliteFailure { extended_code: i32 },
    SqliteSingleThreadedMode,
    FromSqlConversionFailure { index: usize },
    IntegralValueOutOfRange { index: usize },
    Utf8Error { index: usize },
    NulError,
    InvalidParameterName,
    InvalidPath,
    ExecuteReturnedResults,
    QueryReturnedNoRows,
    QueryReturnedMoreThanOneRow,
    InvalidColumnIndex { index: usize },
    InvalidColumnName { name: String },
    InvalidColumnType { index: usize, name: String },
    StatementChangedRows { actual: usize },
    ToSqlConversionFailure,
    InvalidQuery,
    UnwindingPanic,
    MultipleStatement,
    InvalidParameterCount { actual: usize, expected: usize },
    SqlInputError { offset: i32 },
    InvalidDatabaseIndex { index: usize },
    Other,
}

/// A failure of the driver with the text it gave.
#[derive(Debug, PartialEq, Eq)]
pub struct SqliteDriverError {
    pub cause: SqliteDriverCause,
    pub text: String,
}

/// `rusqlite::Error::InvalidParameterCount` as a text. Claimed: both counts in decimal in
/// the driver's sentence.
#[verifier::external_body]
fn parameter_count_text(actual: usize, expected: usize) -> (message: String)
    ensures
        message@ == "Wrong number of parameters passed to query. Got "@ + text::decimal(actual as nat)
            + ", needed "@ + text::decimal(expected as nat),
{
    rusqlite::Error::InvalidParameterCount(actual, expected).to_string()
}

impl SqliteDriverError {
    /// Whether this is the driver's failure for a wrong number of parameters.
    pub open spec fn is_parameter_count(&self, actual: usize, expected: usize) -> bool {
        &&& self.cause == (SqliteDriverCause::InvalidParameterCount { actual, expected })
        &&& self.text@ == "Wrong number of parameters passed to query. Got "@ + text::decimal(
            actual as nat,
        ) + ", needed "@ + text::decimal(expected as nat)
    }

    /// The driver's failure for a wrong number of parameters.
    pub fn invalid_parameter_count(actual: usize, expected: usize) -> (error: Self)
        ensures
            error.is_parameter_count(actual, expected),
    {
        SqliteDriverError {
            cause: SqliteDriverCause::InvalidParameterCount { actual, expected },
            text: parameter_count_text(actual, expected),
        }
    }

    /// Whether a lock of someone else was in the way.
    pub open spec fn is_lock_conflict(&self) -> bool {
        self.cause matches SqliteDriverCause::SqliteFailure { extended_code } && (extended_code & 0xff
            == SQLITE_BUSY || extended_code & 0xff == SQLITE_LOCKED)
    }

    /// Whether another connection had the database locked.
    pub open spec fn is_busy(&self) -> bool {
        self.cause matches SqliteDriverCause::SqliteFailure { extended_code } && extended_code & 0xff
            == SQLITE_BUSY
    }

    pub fn lock_conflict(&self) -> (result: bool)
        ensures
            result == self.is_lock_conflict(),
    {
        match &self.cause {
            SqliteDriverCause::SqliteFailure { extended_code } => {
                let code: i32 = *extended_code & 0xff;
                code == SQLITE_BUSY || code == SQLITE_LOCKED
            },
            _ => false,
        }
    }

    pub fn busy(&self) -> (result: bool)
        ensures
            result == self.is_busy(),
    {
        match &self.cause {
            SqliteDriverCause::SqliteFailure { extended_code } => *extended_code & 0xff == SQLITE_BUSY,
            _ => false,
        }
    }

    pub open spec fn kind(&self) -> SqliteDriverKind {
        match self.cause {
            SqliteDriverCause::SqliteFailure { .. } => SqliteDriverKind::SqliteFailure,
            SqliteDriverCause::SqliteSingleThreadedMode => SqliteDriverKind::SingleThreadedMode,
            SqliteDriverCause::FromSqlConversionFailure { .. } => SqliteDriverKind::ColumnConversion,
            SqliteDriverCause::IntegralValueOutOfRange { .. } => SqliteDriverKind::IntegralOutOfRange,
            SqliteDriverCause::Utf8Error { .. } => SqliteDriverKind::InvalidUtf8,
            SqliteDriverCause::NulError => SqliteDriverKind::EmbeddedNul,
            SqliteDriverCause::InvalidParameterName => SqliteDriverKind::InvalidParameterName,
            SqliteDriverCause::InvalidPath => SqliteDriverKind::InvalidPath,
            SqliteDriverCause::ExecuteReturnedResults => SqliteDriverKind::ExecuteReturnedRows,
            SqliteDriverCause::QueryReturnedNoRows => SqliteDriverKind::NoRows,
            SqliteDriverCause::QueryReturnedMoreThanOneRow => SqliteDriverKind::MultipleRows,
            SqliteDriverCause::InvalidColumnIndex { .. } => SqliteDriverKind::InvalidColumnIndex,
            SqliteDriverCause::InvalidColumnName { .. } => SqliteDriverKind::InvalidColumnName,
            SqliteDriverCause::InvalidColumnType { .. } => SqliteDriverKind::InvalidColumnType,
            SqliteDriverCause::StatementChangedRows { .. } => SqliteDriverKind::UnexpectedChangedRows,
            SqliteDriverCause::ToSqlConversionFailure => SqliteDriverKind::ParameterConversion,
            SqliteDriverCause::InvalidQuery => SqliteDriverKind::InvalidQuery,
            SqliteDriverCause::UnwindingPanic => SqliteDriverKind::CallbackPanicked,
            SqliteDriverCause::MultipleStatement => SqliteDriverKind::MultipleStatements,
            SqliteDriverCause::InvalidParameterCount { .. } => SqliteDriverKind::InvalidParameterCount,
            SqliteDriverCause::SqlInputError { .. } => SqliteDriverKind::SqlInput,
            SqliteDriverCause::InvalidDatabaseIndex { .. } => SqliteDriverKind::InvalidDatabaseIndex,
            SqliteDriverCause::Other => SqliteDriverKind::RusqliteNonSqliteFailure,
        }
    }

    pub open spec fn extended_code(&self) -> Option<i32> {
        match self.cause {
            SqliteDriverCause::SqliteFailure { extended_code } => Some(extended_code),
            _ => None,
        }
    }

    pub open spec fn column_index(&self) -> Option<usize> {
        match self.cause {
            SqliteDriverCause::FromSqlConversionFailure { index } => Some(index),
            SqliteDriverCause::IntegralValueOutOfRange { index } => Some(index),
            SqliteDriverCause::Utf8Error { index } => Some(index),
            SqliteDriverCause::InvalidColumnIndex { index } => Some(index),
            SqliteDriverCause::InvalidColumnType { index, .. } => Some(index),
            _ => None,
        }
    }

    pub open spec fn column_name(&self) -> Option<Seq<char>> {
        match self.cause {
            SqliteDriverCause::InvalidColumnName { name } => diagnostic::identifier_in(name@),
            SqliteDriverCause::InvalidColumnType { name, .. } => diagnostic::identifier_in(name@),
            _ => None,
        }
    }

    /// What a diagnostic keeps of the failure.
    pub open spec fn kept(&self) -> DriverView {
        DriverView {
            kind: self.kind(),
            primary_code: match self.extended_code() {
                Some(code) => Some(code & 0xff),
                None => None,
            },
            extended_code: self.extended_code(),
            column_index: self.column_index(),
            column_name: self.column_name(),
            parameter_actual: match self.cause {
                SqliteDriverCause::InvalidParameterCount { actual, .. } => Some(actual),
                _ => None,
            },
            parameter_expected: match self.cause {
                SqliteDriverCause::InvalidParameterCount { expected, .. } => Some(expected),
                _ => None,
            },
            changed_rows: match self.cause {
                SqliteDriverCause::StatementChangedRows { actual } => Some(actual),
                _ => None,
            },
            sql_offset: match self.cause {
                SqliteDriverCause::SqlInputError { offset } => Some(offset),
                _ => None,
            },
            database_index: match self.cause {
                SqliteDriverCause::InvalidDatabaseIndex { index } => Some(index),
                _ => None,
            },
        }
    }
}

/// A driver failure in a diagnostic, with names as texts.
pub ghost struct DriverView {
    pub kind: SqliteDriverKind,
    pub primary_code: Option<i32>,
    pub extended_code: Option<i32>,
    pub column_index: Option<usize>,
    pub column_name: Option<Seq<char>>,
    pub parameter_actual: Option<usize>,
    pub parameter_expected: Option<usize>,
    pub changed_rows: Option<usize>,
    pub sql_offset: Option<i32>,
    pub database_index: Option<usize>,
}

impl SqliteDriverFailure {
    pub open spec fn shown(self) -> DriverView {
        DriverView {
            kind: self.kind,
            primary_code: self.primary_code,
            extended_code: self.extended_code,
            column_index: self.column_index,
            column_name: diagnostic::identifier_text(self.column_name),
            parameter_actual: self.parameter_actual,
            parameter_expected: self.parameter_expected,
            changed_rows: self.changed_rows,
            sql_offset: self.sql_offset,
            database_index: self.database_index,
        }
    }
}

fn plain_failure(kind: SqliteDriverKind) -> (failure: SqliteDriverFailure)
    ensures
        failure.shown() == (DriverView {
            kind,
            primary_code: None,
            extended_code: None,
            column_index: None,
            column_name: None,
            parameter_actual: None,
            parameter_expected: None,
            changed_rows: None,
            sql_offset: None,
            database_index: None,
        }),
        failure.column_name is None,
{
    SqliteDriverFailure {
        kind,
        primary_code: None,
        extended_code: None,
        column_index: None,
        column_name: None,
        parameter_actual: None,
        parameter_expected: None,
        changed_rows: None,
        sql_offset: None,
        database_index: None,
    }
}

/// What a diagnostic keeps of a driver failure: its kind, its codes and its positions.
pub fn sqlite_driver_failure(source: &SqliteDriverError) -> (failure: SqliteDriverFailure)
    ensures
        failure.shown() == source.kept(),
{
    match &source.cause {
        SqliteDriverCause::SqliteFailure { extended_code } => {
            let mut failure = plain_failure(SqliteDriverKind::SqliteFailure);
            failure.primary_code = Some(*extended_code & 0xff);
            failure.extended_code = Some(*extended_code);
            failure
        },
        SqliteDriverCause::SqliteSingleThreadedMode => plain_failure(
            SqliteDriverKind::SingleThreadedMode,
        ),
        SqliteDriverCause::FromSqlConversionFailure { index } => {
            let mut failure = plain_failure(SqliteDriverKind::ColumnConversion);
            failure.column_index = Some(*index);
            failure
        },
        SqliteDriverCause::IntegralValueOutOfRange { index } => {
            let mut failure = plain_failure(SqliteDriverKind::IntegralOutOfRange);
            failure.column_index = Some(*index);
            failure
        },
        SqliteDriverCause::Utf8Error { index } => {
            let mut failure = plain_failure(SqliteDriverKind::InvalidUtf8);
            failure.column_index = Some(*index);
            failure
        },
        SqliteDriverCause::NulError => plain_failure(SqliteDriverKind::EmbeddedNul),
        SqliteDriverCause::InvalidParameterName => plain_failure(
            SqliteDriverKind::InvalidParameterName,
        ),
        SqliteDriverCause::InvalidPath => plain_failure(SqliteDriverKind::InvalidPath),
        SqliteDriverCause::ExecuteReturnedResults => plain_failure(
            SqliteDriverKind::ExecuteReturnedRows,
        ),
        SqliteDriverCause::QueryReturnedNoRows => plain_failure(SqliteDriverKind::NoRows),
        SqliteDriverCause::QueryReturnedMoreThanOneRow => plain_failure(
            SqliteDriverKind::MultipleRows,
        ),
        SqliteDriverCause::InvalidColumnIndex { index } => {
            let mut failure = plain_failure(SqliteDriverKind::InvalidColumnIndex);
            failure.column_index = Some(*index);
            failure
        },
        SqliteDriverCause::InvalidColumnName { name } => {
            let mut failure = plain_failure(SqliteDriverKind::InvalidColumnName);
            failure.column_name = identifier_of(name.as_str());
            failure
        },
        SqliteDriverCause::InvalidColumnType { index, name } => {
            let mut failure = plain_failure(SqliteDriverKind::InvalidColumnType);
            failure.column_index = Some(*index);
            failure.column_name = identifier_of(name.as_str());
            failure
        },
        SqliteDriverCause::StatementChangedRows { actual } => {
            let mut failure = plain_failure(SqliteDriverKind::UnexpectedChangedRows);
            failure.changed_rows = Some(*actual);
            failure
        },
        SqliteDriverCause::ToSqlConversionFailure => plain_failure(
            SqliteDriverKind::ParameterConversion,
        ),
        SqliteDriverCause::InvalidQuery => plain_failure(SqliteDriverKind::InvalidQuery),
        SqliteDriverCause::UnwindingPanic => plain_failure(SqliteDriverKind::CallbackPanicked),
        SqliteDriverCause::MultipleStatement => plain_failure(SqliteDriverKind::MultipleStatements),
        SqliteDriverCause::InvalidParameterCount { actual, expected } => {
            let mut failure = plain_failure(SqliteDriverKind::InvalidParameterCount);
            failure.parameter_actual = Some(*actual);
            failure.parameter_expected = Some(*expected);
            failure
        },
        SqliteDriverCause::SqlInputError { offset } => {
            let mut failure = plain_failure(SqliteDriverKind::SqlInput);
            failure.sql_offset = Some(*offset);
            failure
        },
        SqliteDriverCause::InvalidDatabaseIndex { index } => {
            let mut failure = plain_failure(SqliteDriverKind::InvalidDatabaseIndex);
            failure.database_index = Some(*index);
            failure
        },
        SqliteDriverCause::Other => plain_failure(SqliteDriverKind::RusqliteNonSqliteFailure),
    }
}

/// What the SQLite storage itself can fail with.
#[derive(Debug, PartialEq, Eq)]
pub enum SqliteRuntimeError {
    Closed,
    AvailableParallelism { source: IoError },
    Cancelled { operation: &'static str },
    InteractiveSessionAlreadyOpen,
    WorkerSpawn { worker: String, source: IoError },
    WorkerPanicked(&'static str),
    Io { operation: &'static str, path: String, source: IoError },
    WindowsFileSystem { operation: &'static str, path: String, source: WindowsFsError },
    Driver { operation: &'static str, source: SqliteDriverError },
    QueryContext { query_id: String, ordinal: usize, source: Box<SqliteRuntimeError> },
    InvalidTarget { path: String },
    UnexpectedArtifact { path: String },
    InvalidValue(&'static str),
    Internal(&'static str),
    BackupIncomplete(&'static str),
    Cleanup { primary: Box<SqliteRuntimeError>, failures: Vec<SqliteRuntimeError> },
}

/// A database problem in a diagnostic, with paths and names as texts.
pub ghost enum ProblemView {
    ExecutorClosed { database: Seq<char> },
    Io { database: Seq<char>, failure: IoFailure },
    Cancelled { database: Seq<char> },
    InteractiveSessionAlreadyOpen { database: Seq<char> },
    WorkerStart { database: Seq<char>, failure: IoFailure },
    WorkerPanicked { database: Seq<char> },
    InvalidTarget { database: Seq<char> },
    UnexpectedArtifact { database: Seq<char> },
    InvalidValue { database: Seq<char> },
    InternalInvariant { database: Seq<char> },
    BackupIncomplete { database: Seq<char> },
    Driver {
        database: Seq<char>,
        query_id: Option<Seq<char>>,
        query_ordinal: Option<usize>,
        failure: DriverView,
    },
    RootInteractiveSessionAlreadyOpen,
    RootDriver {
        query_id: Option<Seq<char>>,
        query_ordinal: Option<usize>,
        failure: DriverView,
    },
    RootInvalidValue,
    RootInternalInvariant,
    RootBackupIncomplete,
}

impl SqliteProblem {
    pub open spec fn shown(self) -> ProblemView {
        match self {
            Self::ExecutorClosed { database } => ProblemView::ExecutorClosed { database: database@ },
            Self::Io { database, failure } => ProblemView::Io { database: database@, failure },
            Self::Cancelled { database } => ProblemView::Cancelled { database: database@ },
            Self::InteractiveSessionAlreadyOpen { database } => {
                ProblemView::InteractiveSessionAlreadyOpen { database: database@ }
            },
            Self::WorkerStart { database, failure } => ProblemView::WorkerStart {
                database: database@,
                failure,
            },
            Self::WorkerPanicked { database } => ProblemView::WorkerPanicked { database: database@ },
            Self::InvalidTarget { database } => ProblemView::InvalidTarget { database: database@ },
            Self::UnexpectedArtifact { database } => ProblemView::UnexpectedArtifact {
                database: database@,
            },
            Self::InvalidValue { database } => ProblemView::InvalidValue { database: database@ },
            Self::InternalInvariant { database } => ProblemView::InternalInvariant {
                database: database@,
            },
            Self::BackupIncomplete { database } => ProblemView::BackupIncomplete {
                database: database@,
            },
            Self::Driver { database, query_id, query_ordinal, failure } => ProblemView::Driver {
                database: database@,
                query_id: diagnostic::identifier_text(query_id),
                query_ordinal,
                failure: failure.shown(),
            },
            Self::RootInteractiveSessionAlreadyOpen => ProblemView::RootInteractiveSessionAlreadyOpen,
            Self::RootDriver { query_id, query_ordinal, failure } => ProblemView::RootDriver {
                query_id: diagnostic::identifier_text(query_id),
                query_ordinal,
                failure: failure.shown(),
            },
            Self::RootInvalidValue => ProblemView::RootInvalidValue,
            Self::RootInternalInvariant => ProblemView::RootInternalInvariant,
            Self::RootBackupIncomplete => ProblemView::RootBackupIncomplete,
        }
    }
}

/// The problem of a storage report.
pub ghost enum StorageProblem {
    Runtime(RuntimeIssue),
    Sqlite { context: SqliteDiagnosticContext, problem: ProblemView },
    Other(Diagnostic),
}

/// A storage report, with paths and names as texts.
pub ghost struct StorageReport {
    pub effect: StateEffect,
    pub primary: StorageProblem,
    pub related: Seq<(RelatedFailureRelation, StorageReport)>,
}

impl StorageReport {
    pub open spec fn runtime(effect: StateEffect, issue: RuntimeIssue) -> Self {
        StorageReport { effect, primary: StorageProblem::Runtime(issue), related: Seq::empty() }
    }

    pub open spec fn sqlite(
        effect: StateEffect,
        context: SqliteDiagnosticContext,
        problem: ProblemView,
    ) -> Self {
        StorageReport {
            effect,
            primary: StorageProblem::Sqlite { context, problem },
            related: Seq::empty(),
        }
    }

    /// The report with one more related failure; it is at least as severe as that.
    pub open spec fn with(self, relation: RelatedFailureRelation, report: StorageReport) -> Self {
        StorageReport {
            effect: self.effect.worse(report.effect),
            related: self.related.push((relation, report)),
            ..self
        }
    }
}

pub open spec fn shown_problem(primary: Diagnostic) -> StorageProblem {
    match primary {
        Diagnostic::Runtime(issue) => StorageProblem::Runtime(issue),
        Diagnostic::Sqlite(issue) => StorageProblem::Sqlite {
            context: issue.context,
            problem: issue.problem.shown(),
        },
        other => StorageProblem::Other(other),
    }
}

impl DiagnosticReport {
    pub open spec fn shown(self) -> StorageReport
        decreases self,
    {
        StorageReport {
            effect: self.effect,
            primary: shown_problem(self.primary),
            related: shown_related(self.related@),
        }
    }
}

pub open spec fn shown_related(related: Seq<RelatedFailure>) -> Seq<
    (RelatedFailureRelation, StorageReport),
>
    decreases related,
{
    if related.len() == 0 {
        Seq::empty()
    } else {
        shown_related(related.drop_last()).push(
            (related.last().relation, related.last().report.shown()),
        )
    }
}

fn runtime_report(effect: StateEffect, issue: RuntimeIssue) -> (report: DiagnosticReport)
    ensures
        report.shown() == StorageReport::runtime(effect, issue),
{
    let report = DiagnosticReport::new(effect, Diagnostic::Runtime(issue));
    assert(report.shown().related =~= Seq::<(RelatedFailureRelation, StorageReport)>::empty());
    report
}

fn sqlite_report(effect: StateEffect, context: SqliteDiagnosticContext, problem: SqliteProblem) -> (report:
    DiagnosticReport)
    ensures
        report.shown() == StorageReport::sqlite(effect, context, problem.shown()),
{
    let report = DiagnosticReport::new(
        effect,
        Diagnostic::Sqlite(SqliteIssue { context, problem }),
    );
    assert(report.shown().related =~= Seq::<(RelatedFailureRelation, StorageReport)>::empty());
    report
}

fn with_cleanup_report(report: DiagnosticReport, related: DiagnosticReport) -> (result:
    DiagnosticReport)
    ensures
        result.shown() == report.shown().with(RelatedFailureRelation::Cleanup, related.shown()),
{
    let ghost before = report;
    let ghost added = RelatedFailure { relation: RelatedFailureRelation::Cleanup, report: related };
    let result = report.with_related(RelatedFailureRelation::Cleanup, related);
    proof {
        assert(result.related@.drop_last() =~= before.related@);
        assert(result.related@.last() == added);
        reveal_with_fuel(DiagnosticReport::shown, 2);
        reveal_with_fuel(shown_related, 2);
    }
    result
}

/// Where a failure at the start of the process is placed.
pub open spec fn startup_context() -> SqliteDiagnosticContext {
    SqliteDiagnosticContext {
        stage: SqliteDiagnosticStage::ProcessStartup,
        operation: SqliteOperation::Open,
        transaction: SqliteTransactionState::NotStarted,
    }
}

/// Where a failure at the end of the process is placed.
pub open spec fn shutdown_context(effect: StateEffect) -> SqliteDiagnosticContext {
    SqliteDiagnosticContext {
        stage: SqliteDiagnosticStage::Shutdown,
        operation: SqliteOperation::Shutdown,
        transaction: if effect == StateEffect::OutcomeUnknown {
            SqliteTransactionState::OutcomeUnknown
        } else {
            SqliteTransactionState::FinalizationFailed
        },
    }
}

impl SqliteRuntimeError {
    /// The report of the failure at `database`. A query's place takes precedence over the
    /// one given; failed cleanups follow as related failures.
    pub open spec fn reported(
        self,
        database: Seq<char>,
        context: SqliteDiagnosticContext,
        effect: StateEffect,
        query_id: Option<Seq<char>>,
        query_ordinal: Option<usize>,
    ) -> StorageReport
        decreases self,
    {
        let shown = diagnostic::safe_path(database);
        match self {
            Self::QueryContext { query_id: id, ordinal, source } => source.reported(
                shown,
                context,
                effect,
                diagnostic::identifier_in(id@),
                Some(ordinal),
            ),
            Self::Cleanup { primary, failures } => cleanup_reported(
                failures@,
                primary.reported(shown, context, effect, query_id, query_ordinal),
                shown,
                context,
                effect,
                query_id,
                query_ordinal,
            ),
            _ => StorageReport::sqlite(
                effect,
                context,
                match self {
                    Self::Closed => ProblemView::ExecutorClosed { database: shown },
                    Self::AvailableParallelism { source } => ProblemView::Io {
                        database: shown,
                        failure: source.failure(),
                    },
                    Self::Cancelled { .. } => ProblemView::Cancelled { database: shown },
                    Self::InteractiveSessionAlreadyOpen => ProblemView::InteractiveSessionAlreadyOpen {
                        database: shown,
                    },
                    Self::WorkerSpawn { source, .. } => ProblemView::WorkerStart {
                        database: shown,
                        failure: source.failure(),
                    },
                    Self::WorkerPanicked(_) => ProblemView::WorkerPanicked { database: shown },
                    Self::Io { source, .. } => ProblemView::Io {
                        database: shown,
                        failure: source.failure(),
                    },
                    Self::WindowsFileSystem { source, .. } => match source {
                        WindowsFsError::Io { source, .. } => ProblemView::Io {
                            database: shown,
                            failure: source.failure(),
                        },
                        _ => ProblemView::InvalidTarget { database: shown },
                    },
                    Self::Driver { source, .. } => ProblemView::Driver {
                        database: shown,
                        query_id,
                        query_ordinal,
                        failure: source.kept(),
                    },
                    Self::InvalidTarget { .. } => ProblemView::InvalidTarget { database: shown },
                    Self::UnexpectedArtifact { .. } => ProblemView::UnexpectedArtifact {
                        database: shown,
                    },
                    Self::InvalidValue(_) => ProblemView::InvalidValue { database: shown },
                    Self::Internal(_) => ProblemView::InternalInvariant { database: shown },
                    _ => ProblemView::BackupIncomplete { database: shown },
                },
            ),
        }
    }

    /// The report of the failure at `database`.
    pub fn diagnostic_report(
        &self,
        database: &str,
        context: SqliteDiagnosticContext,
        effect: StateEffect,
    ) -> (report: DiagnosticReport)
        ensures
            report.shown() == self.reported(database@, context, effect, None, None),
    {
        self.diagnostic_report_with_query(database, context, effect, &None, None)
    }

    /// The report of the failure of a query. An empty identifier is left out.
    pub fn diagnostic_report_for_query(
        &self,
        database: &str,
        context: SqliteDiagnosticContext,
        effect: StateEffect,
        query_id: &str,
        query_ordinal: Option<usize>,
    ) -> (report: DiagnosticReport)
        ensures
            report.shown() == self.reported(
                database@,
                context,
                effect,
                diagnostic::identifier_in(query_id@),
                query_ordinal,
            ),
    {
        let query_id = identifier_of(query_id);
        self.diagnostic_report_with_query(database, context, effect, &query_id, query_ordinal)
    }

    fn diagnostic_report_with_query(
        &self,
        database: &str,
        context: SqliteDiagnosticContext,
        effect: StateEffect,
        query_id: &Option<SafeIdentifier>,
        query_ordinal: Option<usize>,
    ) -> (report: DiagnosticReport)
        ensures
            report.shown() == self.reported(
                database@,
                context,
                effect,
                diagnostic::identifier_text(*query_id),
                query_ordinal,
            ),
        decreases self,
    {
        let database = SafePath::new(database);
        match self {
            Self::Closed => sqlite_report(
                effect,
                context,
                SqliteProblem::ExecutorClosed { database },
            ),
            Self::AvailableParallelism { source } => sqlite_report(
                effect,
                context,
                SqliteProblem::Io { database, failure: IoFailure::from_error(source) },
            ),
            Self::Cancelled { .. } => sqlite_report(
                effect,
                context,
                SqliteProblem::Cancelled { database },
            ),
            Self::InteractiveSessionAlreadyOpen => sqlite_report(
                effect,
                context,
                SqliteProblem::InteractiveSessionAlreadyOpen { database },
            ),
            Self::WorkerSpawn { source, .. } => sqlite_report(
                effect,
                context,
                SqliteProblem::WorkerStart { database, failure: IoFailure::from_error(source) },
            ),
            Self::WorkerPanicked(_) => sqlite_report(
                effect,
                context,
                SqliteProblem::WorkerPanicked { database },
            ),
            Self::Io { source, .. } => sqlite_report(
                effect,
                context,
                SqliteProblem::Io { database, failure: IoFailure::from_error(source) },
            ),
            Self::WindowsFileSystem { source, .. } => match source {
                WindowsFsError::Io { source, .. } => sqlite_report(
                    effect,
                    context,
                    SqliteProblem::Io { database, failure: IoFailure::from_error(source) },
                ),
                _ => sqlite_report(effect, context, SqliteProblem::InvalidTarget { database }),
            },
            Self::Driver { source, .. } => sqlite_report(
                effect,
                context,
                SqliteProblem::Driver {
                    database,
                    query_id: copied_identifier(query_id),
                    query_ordinal,
                    failure: sqlite_driver_failure(source),
                },
            ),
            Self::QueryContext { query_id: id, ordinal, source } => {
                let id = identifier_of(id.as_str());
                source.diagnostic_report_with_query(
                    database.as_str(),
                    context,
                    effect,
                    &id,
                    Some(*ordinal),
                )
            },
            Self::InvalidTarget { .. } => sqlite_report(
                effect,
                context,
                SqliteProblem::InvalidTarget { database },
            ),
            Self::UnexpectedArtifact { .. } => sqlite_report(
                effect,
                context,
                SqliteProblem::UnexpectedArtifact { database },
            ),
            Self::InvalidValue(_) => sqlite_report(
                effect,
                context,
                SqliteProblem::InvalidValue { database },
            ),
            Self::Internal(_) => sqlite_report(
                effect,
                context,
                SqliteProblem::InternalInvariant { database },
            ),
            Self::BackupIncomplete(_) => sqlite_report(
                effect,
                context,
                SqliteProblem::BackupIncomplete { database },
            ),
            Self::Cleanup { primary, failures } => {
                let mut result = primary.diagnostic_report_with_query(
                    database.as_str(),
                    context,
                    effect,
                    query_id,
                    query_ordinal,
                );
                let ghost base = result.shown();
                let mut i: usize = 0;
                assert(failures@.take(0).len() == 0);
                while i < failures.len()
                    invariant
                        i <= failures.len(),
                        *self == (SqliteRuntimeError::Cleanup {
                            primary: *primary,
                            failures: *failures,
                        }),
                        result.shown() == cleanup_reported(
                            failures@.take(i as int),
                            base,
                            database@,
                            context,
                            effect,
                            diagnostic::identifier_text(*query_id),
                            query_ordinal,
                        ),
                    decreases failures.len() - i,
                {
                    proof {
                        assert(decreases_to!(self => self->failures));
                        assert(self->failures == *failures);
                        assert(decreases_to!(*failures => failures@));
                        assert(decreases_to!(failures@ => failures@[i as int]));
                        assert(failures@.take(i + 1).drop_last() =~= failures@.take(i as int));
                        assert(failures@.take(i + 1).last() == failures@[i as int]);
                    }
                    let related = failures[i].diagnostic_report_with_query(
                        database.as_str(),
                        context.with_operation(SqliteOperation::Cleanup),
                        effect,
                        query_id,
                        query_ordinal,
                    );
                    result = with_cleanup_report(result, related);
                    i += 1;
                }
                assert(failures@.take(failures.len() as int) =~= failures@);
                result
            },
        }
    }
}

/// A report with the failed cleanups after it.
pub open spec fn cleanup_reported(
    failures: Seq<SqliteRuntimeError>,
    report: StorageReport,
    database: Seq<char>,
    context: SqliteDiagnosticContext,
    effect: StateEffect,
    query_id: Option<Seq<char>>,
    query_ordinal: Option<usize>,
) -> StorageReport
    decreases failures,
{
    if failures.len() == 0 {
        report
    } else {
        cleanup_reported(
            failures.drop_last(),
            report,
            database,
            context,
            effect,
            query_id,
            query_ordinal,
        ).with(
            RelatedFailureRelation::Cleanup,
            failures.last().reported(
                database,
                SqliteDiagnosticContext { operation: SqliteOperation::Cleanup, ..context },
                effect,
                query_id,
                query_ordinal,
            ),
        )
    }
}

impl SqliteRuntimeError {
    /// The state that a failed shutdown leaves behind.
    pub open spec fn shutdown_effect(self) -> StateEffect {
        if self is Internal {
            StateEffect::OutcomeUnknown
        } else {
            StateEffect::AppliedFinalizationFailed
        }
    }

    /// The report of a failure before there is a project database.
    pub open spec fn startup_reported(self, query_id: Option<Seq<char>>, query_ordinal: Option<usize>) -> StorageReport
        decreases self,
    {
        let component = RuntimeComponent::SqliteExecutor;
        match self {
            Self::Closed => StorageReport::runtime(
                StateEffect::Unchanged,
                RuntimeIssue::ExecutorClosed { component, operation: RuntimeOperation::StartWorker },
            ),
            Self::AvailableParallelism { source } => StorageReport::runtime(
                StateEffect::Unchanged,
                RuntimeIssue::Io {
                    component,
                    operation: RuntimeOperation::DetectAvailableParallelism,
                    failure: source.failure(),
                },
            ),
            Self::Cancelled { .. } => StorageReport::runtime(
                StateEffect::Unchanged,
                RuntimeIssue::Cancelled { component, operation: RuntimeOperation::StartWorker },
            ),
            Self::WorkerSpawn { source, .. } => StorageReport::runtime(
                StateEffect::Unchanged,
                RuntimeIssue::Io {
                    component,
                    operation: RuntimeOperation::StartWorker,
                    failure: source.failure(),
                },
            ),
            Self::WorkerPanicked(_) => StorageReport::runtime(
                StateEffect::Unchanged,
                RuntimeIssue::WorkerPanicked { component, operation: RuntimeOperation::StartWorker },
            ),
            Self::Io { path, .. } => self.reported(path@, startup_context(), StateEffect::Unchanged, None, None),
            Self::WindowsFileSystem { path, .. } => self.reported(path@, startup_context(), StateEffect::Unchanged, None, None),
            Self::InvalidTarget { path } => self.reported(path@, startup_context(), StateEffect::Unchanged, None, None),
            Self::UnexpectedArtifact { path } => self.reported(path@, startup_context(), StateEffect::Unchanged, None, None),
            Self::QueryContext { query_id: id, ordinal, source } => source.startup_reported(
                diagnostic::identifier_in(id@),
                Some(ordinal),
            ),
            Self::Cleanup { primary, failures } => startup_cleanup_reported(
                failures@,
                primary.startup_reported(query_id, query_ordinal),
                query_id,
                query_ordinal,
            ),
            _ => StorageReport::sqlite(
                StateEffect::Unchanged,
                startup_context(),
                match self {
                    Self::InteractiveSessionAlreadyOpen => {
                        ProblemView::RootInteractiveSessionAlreadyOpen
                    },
                    Self::Driver { source, .. } => ProblemView::RootDriver {
                        query_id,
                        query_ordinal,
                        failure: source.kept(),
                    },
                    Self::InvalidValue(_) => ProblemView::RootInvalidValue,
                    Self::Internal(_) => ProblemView::RootInternalInvariant,
                    _ => ProblemView::RootBackupIncomplete,
                },
            ),
        }
    }

    pub fn startup_diagnostic_report(&self) -> (report: DiagnosticReport)
        ensures
            report.shown() == self.startup_reported(None, None),
    {
        self.startup_diagnostic_report_with_query(&None, None)
    }

    fn startup_diagnostic_report_with_query(
        &self,
        query_id: &Option<SafeIdentifier>,
        query_ordinal: Option<usize>,
    ) -> (report: DiagnosticReport)
        ensures
            report.shown() == self.startup_reported(
                diagnostic::identifier_text(*query_id),
                query_ordinal,
            ),
        decreases self,
    {
        let component = RuntimeComponent::SqliteExecutor;
        let effect = StateEffect::Unchanged;
        let context = SqliteDiagnosticContext::new(
            SqliteDiagnosticStage::ProcessStartup,
            SqliteOperation::Open,
            SqliteTransactionState::NotStarted,
        );
        match self {
            Self::Closed => runtime_report(
                effect,
                RuntimeIssue::ExecutorClosed { component, operation: RuntimeOperation::StartWorker },
            ),
            Self::AvailableParallelism { source } => runtime_report(
                effect,
                RuntimeIssue::Io {
                    component,
                    operation: RuntimeOperation::DetectAvailableParallelism,
                    failure: IoFailure::from_error(source),
                },
            ),
            Self::Cancelled { .. } => runtime_report(
                effect,
                RuntimeIssue::Cancelled { component, operation: RuntimeOperation::StartWorker },
            ),
            Self::InteractiveSessionAlreadyOpen => sqlite_report(
                effect,
                context,
                SqliteProblem::RootInteractiveSessionAlreadyOpen,
            ),
            Self::WorkerSpawn { source, .. } => runtime_report(
                effect,
                RuntimeIssue::Io {
                    component,
                    operation: RuntimeOperation::StartWorker,
                    failure: IoFailure::from_error(source),
                },
            ),
            Self::WorkerPanicked(_) => runtime_report(
                effect,
                RuntimeIssue::WorkerPanicked { component, operation: RuntimeOperation::StartWorker },
            ),
            Self::Io { path, .. }
            | Self::WindowsFileSystem { path, .. }
            | Self::InvalidTarget { path }
            | Self::UnexpectedArtifact { path } => self.diagnostic_report(
                path.as_str(),
                context,
                effect,
            ),
            Self::Driver { source, .. } => sqlite_report(
                effect,
                context,
                SqliteProblem::RootDriver {
                    query_id: copied_identifier(query_id),
                    query_ordinal,
                    failure: sqlite_driver_failure(source),
                },
            ),
            Self::QueryContext { query_id: id, ordinal, source } => {
                let id = identifier_of(id.as_str());
                source.startup_diagnostic_report_with_query(&id, Some(*ordinal))
            },
            Self::InvalidValue(_) => sqlite_report(effect, context, SqliteProblem::RootInvalidValue),
            Self::Internal(_) => sqlite_report(effect, context, SqliteProblem::RootInternalInvariant),
            Self::BackupIncomplete(_) => sqlite_report(
                effect,
                context,
                SqliteProblem::RootBackupIncomplete,
            ),
            Self::Cleanup { primary, failures } => {
                let mut result = primary.startup_diagnostic_report_with_query(query_id, query_ordinal);
                let ghost base = result.shown();
                let mut i: usize = 0;
                assert(failures@.take(0).len() == 0);
                while i < failures.len()
                    invariant
                        i <= failures.len(),
                        *self == (SqliteRuntimeError::Cleanup {
                            primary: *primary,
                            failures: *failures,
                        }),
                        result.shown() == startup_cleanup_reported(
                            failures@.take(i as int),
                            base,
                            diagnostic::identifier_text(*query_id),
                            query_ordinal,
                        ),
                    decreases failures.len() - i,
                {
                    proof {
                        assert(decreases_to!(self => self->failures));
                        assert(self->failures == *failures);
                        assert(decreases_to!(*failures => failures@));
                        assert(decreases_to!(failures@ => failures@[i as int]));
                        assert(failures@.take(i + 1).drop_last() =~= failures@.take(i as int));
                        assert(failures@.take(i + 1).last() == failures@[i as int]);
                    }
                    let related = failures[i].startup_diagnostic_report_with_query(
                        query_id,
                        query_ordinal,
                    );
                    result = with_cleanup_report(result, related);
                    i += 1;
                }
                assert(failures@.take(failures.len() as int) =~= failures@);
                result
            },
        }
    }

    /// The report of a failure to close the storage. Only a broken internal rule leaves the
    /// outcome unknown.
    pub open spec fn shutdown_reported(self, query_id: Option<Seq<char>>, query_ordinal: Option<usize>) -> StorageReport
        decreases self,
    {
        let component = RuntimeComponent::SqliteExecutor;
        match self {
            Self::Closed => StorageReport::runtime(
                self.shutdown_effect(),
                RuntimeIssue::ExecutorClosed { component, operation: RuntimeOperation::Shutdown },
            ),
            Self::AvailableParallelism { source } => StorageReport::runtime(
                self.shutdown_effect(),
                RuntimeIssue::Io {
                    component,
                    operation: RuntimeOperation::Shutdown,
                    failure: source.failure(),
                },
            ),
            Self::Cancelled { .. } => StorageReport::runtime(
                self.shutdown_effect(),
                RuntimeIssue::Cancelled { component, operation: RuntimeOperation::Shutdown },
            ),
            Self::WorkerSpawn { source, .. } => StorageReport::runtime(
                self.shutdown_effect(),
                RuntimeIssue::Io {
                    component,
                    operation: RuntimeOperation::Shutdown,
                    failure: source.failure(),
                },
            ),
            Self::WorkerPanicked(_) => StorageReport::runtime(
                self.shutdown_effect(),
                RuntimeIssue::WorkerPanicked { component, operation: RuntimeOperation::Shutdown },
            ),
            Self::Io { path, .. } => self.reported(path@, shutdown_context(self.shutdown_effect()), self.shutdown_effect(), None, None),
            Self::WindowsFileSystem { path, .. } => self.reported(path@, shutdown_context(self.shutdown_effect()), self.shutdown_effect(), None, None),
            Self::InvalidTarget { path } => self.reported(path@, shutdown_context(self.shutdown_effect()), self.shutdown_effect(), None, None),
            Self::UnexpectedArtifact { path } => self.reported(path@, shutdown_context(self.shutdown_effect()), self.shutdown_effect(), None, None),
            Self::QueryContext { query_id: id, ordinal, source } => source.shutdown_reported(
                diagnostic::identifier_in(id@),
                Some(ordinal),
            ),
            Self::Cleanup { primary, failures } => shutdown_cleanup_reported(
                failures@,
                primary.shutdown_reported(query_id, query_ordinal),
                query_id,
                query_ordinal,
            ),
            _ => StorageReport::sqlite(
                self.shutdown_effect(),
                shutdown_context(self.shutdown_effect()),
                match self {
                    Self::InteractiveSessionAlreadyOpen => {
                        ProblemView::RootInteractiveSessionAlreadyOpen
                    },
                    Self::Driver { source, .. } => ProblemView::RootDriver {
                        query_id,
                        query_ordinal,
                        failure: source.kept(),
                    },
                    Self::InvalidValue(_) => ProblemView::RootInvalidValue,
                    Self::Internal(_) => ProblemView::RootInternalInvariant,
                    _ => ProblemView::RootBackupIncomplete,
                },
            ),
        }
    }

    pub fn shutdown_diagnostic_report(&self) -> (report: DiagnosticReport)
        ensures
            report.shown() == self.shutdown_reported(None, None),
    {
        self.shutdown_diagnostic_report_with_query(&None, None)
    }

    fn shutdown_diagnostic_report_with_query(
        &self,
        query_id: &Option<SafeIdentifier>,
        query_ordinal: Option<usize>,
    ) -> (report: DiagnosticReport)
        ensures
            report.shown() == self.shutdown_reported(
                diagnostic::identifier_text(*query_id),
                query_ordinal,
            ),
        decreases self,
    {
        let component = RuntimeComponent::SqliteExecutor;
        let effect = match self {
            Self::Internal(_) => StateEffect::OutcomeUnknown,
            _ => StateEffect::AppliedFinalizationFailed,
        };
        let transaction = match self {
            Self::Internal(_) => SqliteTransactionState::OutcomeUnknown,
            _ => SqliteTransactionState::FinalizationFailed,
        };
        let context = SqliteDiagnosticContext::new(
            SqliteDiagnosticStage::Shutdown,
            SqliteOperation::Shutdown,
            transaction,
        );
        match self {
            Self::Closed => runtime_report(
                effect,
                RuntimeIssue::ExecutorClosed { component, operation: RuntimeOperation::Shutdown },
            ),
            Self::AvailableParallelism { source } => runtime_report(
                effect,
                RuntimeIssue::Io {
                    component,
                    operation: RuntimeOperation::Shutdown,
                    failure: IoFailure::from_error(source),
                },
            ),
            Self::Cancelled { .. } => runtime_report(
                effect,
                RuntimeIssue::Cancelled { component, operation: RuntimeOperation::Shutdown },
            ),
            Self::InteractiveSessionAlreadyOpen => sqlite_report(
                effect,
                context,
                SqliteProblem::RootInteractiveSessionAlreadyOpen,
            ),
            Self::WorkerSpawn { source, .. } => runtime_report(
                effect,
                RuntimeIssue::Io {
                    component,
                    operation: RuntimeOperation::Shutdown,
                    failure: IoFailure::from_error(source),
                },
            ),
            Self::WorkerPanicked(_) => runtime_report(
                effect,
                RuntimeIssue::WorkerPanicked { component, operation: RuntimeOperation::Shutdown },
            ),
            Self::Io { path, .. }
            | Self::WindowsFileSystem { path, .. }
            | Self::InvalidTarget { path }
            | Self::UnexpectedArtifact { path } => self.diagnostic_report(
                path.as_str(),
                context,
                effect,
            ),
            Self::Driver { source, .. } => sqlite_report(
                effect,
                context,
                SqliteProblem::RootDriver {
                    query_id: copied_identifier(query_id),
                    query_ordinal,
                    failure: sqlite_driver_failure(source),
                },
            ),
            Self::QueryContext { query_id: id, ordinal, source } => {
                let id = identifier_of(id.as_str());
                source.shutdown_diagnostic_report_with_query(&id, Some(*ordinal))
            },
            Self::InvalidValue(_) => sqlite_report(effect, context, SqliteProblem::RootInvalidValue),
            Self::Internal(_) => sqlite_report(effect, context, SqliteProblem::RootInternalInvariant),
            Self::BackupIncomplete(_) => sqlite_report(
                effect,
                context,
                SqliteProblem::RootBackupIncomplete,
            ),
            Self::Cleanup { primary, failures } => {
                let mut result = primary.shutdown_diagnostic_report_with_query(query_id, query_ordinal);
                let ghost base = result.shown();
                let mut i: usize = 0;
                assert(failures@.take(0).len() == 0);
                while i < failures.len()
                    invariant
                        i <= failures.len(),
                        *self == (SqliteRuntimeError::Cleanup {
                            primary: *primary,
                            failures: *failures,
                        }),
                        result.shown() == shutdown_cleanup_reported(
                            failures@.take(i as int),
                            base,
                            diagnostic::identifier_text(*query_id),
                            query_ordinal,
                        ),
                    decreases failures.len() - i,
                {
                    proof {
                        assert(decreases_to!(self => self->failures));
                        assert(self->failures == *failures);
                        assert(decreases_to!(*failures => failures@));
                        assert(decreases_to!(failures@ => failures@[i as int]));
                        assert(failures@.take(i + 1).drop_last() =~= failures@.take(i as int));
                        assert(failures@.take(i + 1).last() == failures@[i as int]);
                    }
                    let related = failures[i].shutdown_diagnostic_report_with_query(
                        query_id,
                        query_ordinal,
                    );
                    result = with_cleanup_report(result, related);
                    i += 1;
                }
                assert(failures@.take(failures.len() as int) =~= failures@);
                result
            },
        }
    }

    /// A driver failure. One that comes from giving up the wait for a lock is a
    /// cancellation, not a failure.
    pub open spec fn of_driver(
        operation: &'static str,
        source: SqliteDriverError,
        wait_cancelled: bool,
    ) -> Self {
        if wait_cancelled && source.is_lock_conflict() {
            Self::Cancelled { operation }
        } else {
            Self::Driver { operation, source }
        }
    }

    pub fn driver(operation: &'static str, source: SqliteDriverError, wait_cancelled: bool) -> (error: Self)
        ensures
            error == Self::of_driver(operation, source, wait_cancelled),
    {
        if wait_cancelled && source.lock_conflict() {
            return Self::Cancelled { operation };
        }
        Self::Driver { operation, source }
    }

    pub fn io(operation: &'static str, path: &str, source: IoError) -> (error: Self)
        ensures
            error matches Self::Io { operation: o, path: p, source: s } && o == operation && p@ == path@
                && s == source,
    {
        Self::Io { operation, path: String::from_str(path), source }
    }

    pub fn windows_file_system(operation: &'static str, path: &str, source: WindowsFsError) -> (error:
        Self)
        ensures
            error matches Self::WindowsFileSystem { operation: o, path: p, source: s } && o == operation
                && p@ == path@ && s == source,
    {
        Self::WindowsFileSystem { operation, path: String::from_str(path), source }
    }

    /// A failure with the query it happened in.
    pub fn query_context(query_id: &str, ordinal: usize, source: Self) -> (error: Self)
        ensures
            error matches Self::QueryContext { query_id: id, ordinal: o, source: s } && id@ == query_id@
                && o == ordinal && *s == source,
    {
        Self::QueryContext { query_id: String::from_str(query_id), ordinal, source: Box::new(source) }
    }

    /// A failure and what failed while cleaning up after it.
    pub fn with_failure(primary: Self, failure: Self) -> (error: Self)
        ensures
            error.is_followed_by(primary, failure),
    {
        let mut failures: Vec<SqliteRuntimeError> = Vec::new();
        failures.push(failure);
        Self::Cleanup { primary: Box::new(primary), failures }
    }

    /// Whether this is `primary` with `failure` as the one failed cleanup.
    pub open spec fn is_followed_by(self, primary: Self, failure: Self) -> bool {
        self matches Self::Cleanup { primary: p, failures } && *p == primary && failures@ == seq![
            failure,
        ]
    }

    pub open spec fn text(self) -> Seq<char>
        decreases self,
    {
        match self {
            Self::Closed => "SQLite 存储根已经关闭"@,
            Self::AvailableParallelism { source } => "无法探测 SQLite 可用并行度："@ + source.text@,
            Self::Cancelled { operation } => "SQLite "@ + operation@ + " 在等待数据库锁时被取消"@,
            Self::InteractiveSessionAlreadyOpen => "当前 SQLite 存储根已有活动交互会话"@,
            Self::WorkerSpawn { worker, source } => "无法启动 SQLite 工作线程 "@ + worker@ + "："@
                + source.text@,
            Self::WorkerPanicked(worker) => "SQLite 工作线程 "@ + worker@ + " 发生 panic"@,
            Self::Io { operation, path, source } => "SQLite "@ + operation@ + " "@ + path@ + " 失败："@
                + source.text@,
            Self::WindowsFileSystem { operation, path, source } => "SQLite "@ + operation@ + " "@ + path@
                + " 失败："@ + source.text(),
            Self::Driver { operation, source } => "SQLite "@ + operation@ + " 失败："@ + source.text@,
            Self::QueryContext { query_id, ordinal, source } => "SQLite 查询 "@ + query_id@ + "（序号 "@
                + text::decimal(ordinal as nat) + "）失败："@ + source.text(),
            Self::InvalidTarget { path } => "SQLite 目标不是普通文件："@ + path@,
            Self::UnexpectedArtifact { path } => "SQLite 新建数据库之前已存在未归属本次操作的伴生文件："@
                + path@,
            Self::InvalidValue(reason) => "SQLite 值无效："@ + reason@,
            Self::Internal(reason) => "SQLite 内部不变量破坏："@ + reason@,
            Self::BackupIncomplete(state) => "SQLite online backup 未完成："@ + state@,
            Self::Cleanup { primary, failures } => primary.text() + "；清理失败"@ + failure_texts(
                failures@,
            ),
        }
    }

    /// The failure in words.
    pub fn message(&self) -> (message: String)
        ensures
            message@ == self.text(),
        decreases self,
    {
        match self {
            Self::Closed => String::from_str("SQLite 存储根已经关闭"),
            Self::AvailableParallelism { source } => String::from_str(
                "无法探测 SQLite 可用并行度：",
            ).concat(source.text.as_str()),
            Self::Cancelled { operation } => String::from_str("SQLite ").concat(operation).concat(
                " 在等待数据库锁时被取消",
            ),
            Self::InteractiveSessionAlreadyOpen => String::from_str("当前 SQLite 存储根已有活动交互会话"),
            Self::WorkerSpawn { worker, source } => String::from_str("无法启动 SQLite 工作线程 ").concat(
                worker.as_str(),
            ).concat("：").concat(source.text.as_str()),
            Self::WorkerPanicked(worker) => String::from_str("SQLite 工作线程 ").concat(worker).concat(
                " 发生 panic",
            ),
            Self::Io { operation, path, source } => String::from_str("SQLite ").concat(operation).concat(
                " ",
            ).concat(path.as_str()).concat(" 失败：").concat(source.text.as_str()),
            Self::WindowsFileSystem { operation, path, source } => {
                let detail = source.message();
                String::from_str("SQLite ").concat(operation).concat(" ").concat(
                    path.as_str(),
                ).concat(" 失败：").concat(detail.as_str())
            },
            Self::Driver { operation, source } => String::from_str("SQLite ").concat(operation).concat(
                " 失败：",
            ).concat(source.text.as_str()),
            Self::QueryContext { query_id, ordinal, source } => {
                let detail = source.message();
                let mut message = String::from_str("SQLite 查询 ").concat(query_id.as_str()).concat(
                    "（序号 ",
                );
                push_decimal(&mut message, *ordinal as u64);
                message.concat("）失败：").concat(detail.as_str())
            },
            Self::InvalidTarget { path } => String::from_str("SQLite 目标不是普通文件：").concat(
                path.as_str(),
            ),
            Self::UnexpectedArtifact { path } => String::from_str(
                "SQLite 新建数据库之前已存在未归属本次操作的伴生文件：",
            ).concat(path.as_str()),
            Self::InvalidValue(reason) => String::from_str("SQLite 值无效：").concat(reason),
            Self::Internal(reason) => String::from_str("SQLite 内部不变量破坏：").concat(reason),
            Self::BackupIncomplete(state) => String::from_str("SQLite online backup 未完成：").concat(state),
            Self::Cleanup { primary, failures } => {
                let mut message = primary.message().concat("；清理失败");
                let ghost head = message@;
                let mut i: usize = 0;
                assert(failures@.take(0).len() == 0);
                assert(message@ =~= head + failure_texts(failures@.take(0)));
                while i < failures.len()
                    invariant
                        i <= failures.len(),
                        *self == (SqliteRuntimeError::Cleanup {
                            primary: *primary,
                            failures: *failures,
                        }),
                        message@ == head + failure_texts(failures@.take(i as int)),
                    decreases failures.len() - i,
                {
                    proof {
                        assert(decreases_to!(self => self->failures));
                        assert(self->failures == *failures);
                        assert(decreases_to!(*failures => failures@));
                        assert(decreases_to!(failures@ => failures@[i as int]));
                        assert(failures@.take(i + 1).drop_last() =~= failures@.take(i as int));
                        assert(failures@.take(i + 1).last() == failures@[i as int]);
                    }
                    let detail = failures[i].message();
                    let ghost before = message@;
                    message = message.concat("；").concat(detail.as_str());
                    assert(message@ =~= head + (failure_texts(failures@.take(i as int)) + "；"@
                        + detail@));
                    i += 1;
                }
                assert(failures@.take(failures.len() as int) =~= failures@);
                message
            },
        }
    }
}

/// The failed cleanups in words, each behind a semicolon.
pub open spec fn failure_texts(failures: Seq<SqliteRuntimeError>) -> Seq<char>
    decreases failures,
{
    if failures.len() == 0 {
        Seq::empty()
    } else {
        failure_texts(failures.drop_last()) + "；"@ + failures.last().text()
    }
}

/// A startup report with the failed cleanups after it.
pub open spec fn startup_cleanup_reported(
    failures: Seq<SqliteRuntimeError>,
    report: StorageReport,
    query_id: Option<Seq<char>>,
    query_ordinal: Option<usize>,
) -> StorageReport
    decreases failures,
{
    if failures.len() == 0 {
        report
    } else {
        startup_cleanup_reported(failures.drop_last(), report, query_id, query_ordinal).with(
            RelatedFailureRelation::Cleanup,
            failures.last().startup_reported(query_id, query_ordinal),
        )
    }
}

/// A shutdown report with the failed cleanups after it.
pub open spec fn shutdown_cleanup_reported(
    failures: Seq<SqliteRuntimeError>,
    report: StorageReport,
    query_id: Option<Seq<char>>,
    query_ordinal: Option<usize>,
) -> StorageReport
    decreases failures,
{
    if failures.len() == 0 {
        report
    } else {
        shutdown_cleanup_reported(failures.drop_last(), report, query_id, query_ordinal).with(
            RelatedFailureRelation::Cleanup,
            failures.last().shutdown_reported(query_id, query_ordinal),
        )
    }
}

/// What a storage failure came from.
#[derive(Debug)]
pub enum SqliteErrorSource<'a> {
    Io(&'a IoError),
    WindowsFileSystem(&'a WindowsFsError),
    Driver(&'a SqliteDriverError),
    Runtime(&'a SqliteRuntimeError),
}

impl SqliteRuntimeError {
    /// What the failure came from.
    pub fn source(&self) -> (source: Option<SqliteErrorSource<'_>>)
        ensures
            match source {
                Some(SqliteErrorSource::Io(found)) => match self {
                    Self::AvailableParallelism { source } => *found == *source,
                    Self::WorkerSpawn { source, .. } => *found == *source,
                    Self::Io { source, .. } => *found == *source,
                    _ => false,
                },
                Some(SqliteErrorSource::WindowsFileSystem(found)) => *self matches Self::WindowsFileSystem {
                    source,
                    ..
                } && *found == source,
                Some(SqliteErrorSource::Driver(found)) => *self matches Self::Driver { source, .. }
                    && *found == source,
                Some(SqliteErrorSource::Runtime(found)) => match self {
                    Self::QueryContext { source, .. } => *found == **source,
                    Self::Cleanup { primary, .. } => *found == **primary,
                    _ => false,
                },
                None => self is Closed || self is Cancelled || self is InteractiveSessionAlreadyOpen
                    || self is WorkerPanicked || self is InvalidTarget || self is UnexpectedArtifact
                    || self is InvalidValue || self is Internal || self is BackupIncomplete,
            },
    {
        match self {
            Self::AvailableParallelism { source }
            | Self::WorkerSpawn { source, .. }
            | Self::Io { source, .. } => Some(SqliteErrorSource::Io(source)),
            Self::WindowsFileSystem { source, .. } => Some(
                SqliteErrorSource::WindowsFileSystem(source),
            ),
            Self::Driver { source, .. } => Some(SqliteErrorSource::Driver(source)),
            Self::QueryContext { source, .. } => Some(SqliteErrorSource::Runtime(source)),
            Self::Cleanup { primary, .. } => Some(SqliteErrorSource::Runtime(primary)),
            _ => None,
        }
    }
}

/// Failed cleanups never change the effect that a report was given.
pub proof fn reports_keep_the_effect(
    error: SqliteRuntimeError,
    database: Seq<char>,
    context: SqliteDiagnosticContext,
    effect: StateEffect,
    query_id: Option<Seq<char>>,
    query_ordinal: Option<usize>,
)
    ensures
        error.reported(database, context, effect, query_id, query_ordinal).effect == effect,
    decreases error,
{
    let shown = diagnostic::safe_path(database);
    match error {
        SqliteRuntimeError::QueryContext { query_id: id, ordinal, source } => {
            reports_keep_the_effect(
                *source,
                shown,
                context,
                effect,
                diagnostic::identifier_in(id@),
                Some(ordinal),
            );
        },
        SqliteRuntimeError::Cleanup { primary, failures } => {
            reports_keep_the_effect(*primary, shown, context, effect, query_id, query_ordinal);
            lemma_cleanups_keep_the_effect(
                failures@,
                primary.reported(shown, context, effect, query_id, query_ordinal),
                shown,
                context,
                effect,
                query_id,
                query_ordinal,
            );
        },
        _ => {},
    }
}

proof fn lemma_cleanups_keep_the_effect(
    failures: Seq<SqliteRuntimeError>,
    report: StorageReport,
    database: Seq<char>,
    context: SqliteDiagnosticContext,
    effect: StateEffect,
    query_id: Option<Seq<char>>,
    query_ordinal: Option<usize>,
)
    requires
        report.effect == effect,
    ensures
        cleanup_reported(failures, report, database, context, effect, query_id, query_ordinal).effect
            == effect,
    decreases failures,
{
    if failures.len() > 0 {
        lemma_cleanups_keep_the_effect(
            failures.drop_last(),
            report,
            database,
            context,
            effect,
            query_id,
            query_ordinal,
        );
        reports_keep_the_effect(
            failures.last(),
            database,
            SqliteDiagnosticContext { operation: SqliteOperation::Cleanup, ..context },
            effect,
            query_id,
            query_ordinal,
        );
    }
}

} // verus!
