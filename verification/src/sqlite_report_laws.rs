//! What the reports of a failed storage say.

use vstd::prelude::*;
use crate::diagnostic;
use crate::diagnostic::{
    RelatedFailureRelation, RuntimeComponent, RuntimeIssue, RuntimeOperation,
    SqliteDiagnosticContext, SqliteDiagnosticStage, SqliteOperation, SqliteTransactionState,
    StateEffect,
};
use crate::diagnostic_laws;
use crate::sqlite_error;
use crate::sqlite_error::{
    ProblemView, SqliteDriverCause, SqliteDriverError, SqliteRuntimeError, StorageProblem,
    StorageReport,
};
use crate::windows::WindowsFsError;

verus! {

/// A diagnostic keeps of a driver's failure what the failure carries, and nothing that it
/// does not.
pub proof fn driver_failures_are_kept(error: SqliteDriverError)
    ensures
        ({
            let kept = error.kept();
            &&& kept.extended_code == (match error.cause {
                SqliteDriverCause::SqliteFailure { extended_code } => Some(extended_code),
                _ => None,
            })
            &&& kept.primary_code == (match error.cause {
                SqliteDriverCause::SqliteFailure { extended_code } => Some(extended_code & 0xff),
                _ => None,
            })
            &&& kept.column_index is Some <==> error.cause is FromSqlConversionFailure || error.cause
                is IntegralValueOutOfRange || error.cause is Utf8Error || error.cause
                is InvalidColumnIndex || error.cause is InvalidColumnType
            &&& error.cause matches SqliteDriverCause::FromSqlConversionFailure { index }
                ==> kept.column_index == Some(index)
            &&& error.cause matches SqliteDriverCause::IntegralValueOutOfRange { index }
                ==> kept.column_index == Some(index)
            &&& error.cause matches SqliteDriverCause::Utf8Error { index } ==> kept.column_index
                == Some(index)
            &&& error.cause matches SqliteDriverCause::InvalidColumnIndex { index }
                ==> kept.column_index == Some(index)
            &&& error.cause matches SqliteDriverCause::InvalidColumnType { index, name }
                ==> kept.column_index == Some(index) && (name@.len() > 0 ==> kept.column_name == Some(
                name@,
            ))
            &&& error.cause matches SqliteDriverCause::InvalidColumnName { name } ==> (name@.len() > 0
                ==> kept.column_name == Some(name@))
            &&& kept.column_name is Some ==> error.cause is InvalidColumnName || error.cause
                is InvalidColumnType
            &&& error.cause matches SqliteDriverCause::InvalidParameterCount { actual, expected }
                ==> kept.parameter_actual == Some(actual) && kept.parameter_expected == Some(expected)
            &&& kept.parameter_actual is Some <==> error.cause is InvalidParameterCount
            &&& kept.parameter_expected is Some <==> error.cause is InvalidParameterCount
            &&& error.cause matches SqliteDriverCause::StatementChangedRows { actual }
                ==> kept.changed_rows == Some(actual)
            &&& kept.changed_rows is Some <==> error.cause is StatementChangedRows
            &&& error.cause matches SqliteDriverCause::SqlInputError { offset } ==> kept.sql_offset
                == Some(offset)
            &&& kept.sql_offset is Some <==> error.cause is SqlInputError
            &&& error.cause matches SqliteDriverCause::InvalidDatabaseIndex { index }
                ==> kept.database_index == Some(index)
            &&& kept.database_index is Some <==> error.cause is InvalidDatabaseIndex
        }),
        error.is_busy() <==> (error.cause matches SqliteDriverCause::SqliteFailure { extended_code }
            && extended_code & 0xff == 5),
        error.is_lock_conflict() <==> (error.cause matches SqliteDriverCause::SqliteFailure {
            extended_code,
        } && (extended_code & 0xff == 5 || extended_code & 0xff == 6)),
{
}

/// Every cause of a driver's failure has a kind of its own.
pub proof fn driver_failures_have_one_kind_each(error: SqliteDriverError)
    ensures
        error.cause is SqliteFailure <==> error.kept().kind is SqliteFailure,
        error.cause is SqliteSingleThreadedMode <==> error.kept().kind is SingleThreadedMode,
        error.cause is FromSqlConversionFailure <==> error.kept().kind is ColumnConversion,
        error.cause is IntegralValueOutOfRange <==> error.kept().kind is IntegralOutOfRange,
        error.cause is Utf8Error <==> error.kept().kind is InvalidUtf8,
        error.cause is NulError <==> error.kept().kind is EmbeddedNul,
        error.cause is InvalidParameterName <==> error.kept().kind is InvalidParameterName,
        error.cause is InvalidPath <==> error.kept().kind is InvalidPath,
        error.cause is ExecuteReturnedResults <==> error.kept().kind is ExecuteReturnedRows,
        error.cause is QueryReturnedNoRows <==> error.kept().kind is NoRows,
        error.cause is QueryReturnedMoreThanOneRow <==> error.kept().kind is MultipleRows,
        error.cause is InvalidColumnIndex <==> error.kept().kind is InvalidColumnIndex,
        error.cause is InvalidColumnName <==> error.kept().kind is InvalidColumnName,
        error.cause is InvalidColumnType <==> error.kept().kind is InvalidColumnType,
        error.cause is StatementChangedRows <==> error.kept().kind is UnexpectedChangedRows,
        error.cause is ToSqlConversionFailure <==> error.kept().kind is ParameterConversion,
        error.cause is InvalidQuery <==> error.kept().kind is InvalidQuery,
        error.cause is UnwindingPanic <==> error.kept().kind is CallbackPanicked,
        error.cause is MultipleStatement <==> error.kept().kind is MultipleStatements,
        error.cause is InvalidParameterCount <==> error.kept().kind is InvalidParameterCount,
        error.cause is SqlInputError <==> error.kept().kind is SqlInput,
        error.cause is InvalidDatabaseIndex <==> error.kept().kind is InvalidDatabaseIndex,
        error.cause is Other <==> error.kept().kind is RusqliteNonSqliteFailure,
{
}

/// Whether the failure stands for itself: it is neither a query's nor one with cleanups.
pub open spec fn stands_alone(error: SqliteRuntimeError) -> bool {
    !(error is QueryContext) && !(error is Cleanup)
}

/// A failure that stands for itself is reported as what it is, with the database, the place
/// and the effect that were given, and nothing beside it.
pub proof fn failures_are_reported_as_what_they_are(
    error: SqliteRuntimeError,
    database: Seq<char>,
    context: SqliteDiagnosticContext,
    effect: StateEffect,
    query_id: Option<Seq<char>>,
    query_ordinal: Option<usize>,
)
    requires
        stands_alone(error),
    ensures
        ({
            let report = error.reported(database, context, effect, query_id, query_ordinal);
            let shown = diagnostic::safe_path(database);
            &&& report.effect == effect
            &&& report.related.len() == 0
            &&& report.primary matches StorageProblem::Sqlite { context: place, problem }
            &&& place == context
            &&& match error {
                SqliteRuntimeError::Closed => problem == (ProblemView::ExecutorClosed {
                    database: shown,
                }),
                SqliteRuntimeError::AvailableParallelism { source } => problem == (ProblemView::Io {
                    database: shown,
                    failure: source.failure(),
                }),
                SqliteRuntimeError::Cancelled { .. } => problem == (ProblemView::Cancelled {
                    database: shown,
                }),
                SqliteRuntimeError::InteractiveSessionAlreadyOpen => problem == (
                ProblemView::InteractiveSessionAlreadyOpen { database: shown }),
                SqliteRuntimeError::WorkerSpawn { source, .. } => problem == (
                ProblemView::WorkerStart { database: shown, failure: source.failure() }),
                SqliteRuntimeError::WorkerPanicked(_) => problem == (ProblemView::WorkerPanicked {
                    database: shown,
                }),
                SqliteRuntimeError::Io { source, .. } => problem == (ProblemView::Io {
                    database: shown,
                    failure: source.failure(),
                }),
                SqliteRuntimeError::WindowsFileSystem {
                    source: WindowsFsError::Io { source, .. },
                    ..
                } => problem == (ProblemView::Io { database: shown, failure: source.failure() }),
                SqliteRuntimeError::WindowsFileSystem { .. } => problem == (
                ProblemView::InvalidTarget { database: shown }),
                SqliteRuntimeError::Driver { source, .. } => problem == (ProblemView::Driver {
                    database: shown,
                    query_id,
                    query_ordinal,
                    failure: source.kept(),
                }),
                SqliteRuntimeError::InvalidTarget { .. } => problem == (ProblemView::InvalidTarget {
                    database: shown,
                }),
                SqliteRuntimeError::UnexpectedArtifact { .. } => problem == (
                ProblemView::UnexpectedArtifact { database: shown }),
                SqliteRuntimeError::InvalidValue(_) => problem == (ProblemView::InvalidValue {
                    database: shown,
                }),
                SqliteRuntimeError::Internal(_) => problem == (ProblemView::InternalInvariant {
                    database: shown,
                }),
                SqliteRuntimeError::BackupIncomplete(_) => problem == (
                ProblemView::BackupIncomplete { database: shown }),
                _ => true,
            }
        }),
{
}

/// A query's failure is reported under the query's own name and number, whatever was given.
pub proof fn queries_are_reported_by_name(
    error: SqliteRuntimeError,
    database: Seq<char>,
    context: SqliteDiagnosticContext,
    effect: StateEffect,
    query_id: Option<Seq<char>>,
    query_ordinal: Option<usize>,
)
    requires
        error is QueryContext,
    ensures
        ({
            let name = error->query_id@;
            let known = if name.len() > 0 {
                Some(name)
            } else {
                None
            };
            let number = Some(error->ordinal);
            let source = *error->QueryContext_source;
            &&& error.reported(database, context, effect, query_id, query_ordinal) == source.reported(
                diagnostic::safe_path(database),
                context,
                effect,
                known,
                number,
            )
            &&& error.startup_reported(query_id, query_ordinal) == source.startup_reported(
                known,
                number,
            )
            &&& error.shutdown_reported(query_id, query_ordinal) == source.shutdown_reported(
                known,
                number,
            )
        }),
{
}

/// Failed cleanups follow the failure that they belong to, one by one and in their order.
pub proof fn cleanups_follow_their_failure(
    failures: Seq<SqliteRuntimeError>,
    report: StorageReport,
    database: Seq<char>,
    context: SqliteDiagnosticContext,
    effect: StateEffect,
    query_id: Option<Seq<char>>,
    query_ordinal: Option<usize>,
    i: int,
)
    requires
        0 <= i < failures.len(),
    ensures
        ({
            let whole = sqlite_error::cleanup_reported(
                failures,
                report,
                database,
                context,
                effect,
                query_id,
                query_ordinal,
            );
            let start = sqlite_error::startup_cleanup_reported(
                failures,
                report,
                query_id,
                query_ordinal,
            );
            let end = sqlite_error::shutdown_cleanup_reported(
                failures,
                report,
                query_id,
                query_ordinal,
            );
            let place = report.related.len() + i;
            &&& whole.primary == report.primary && start.primary == report.primary && end.primary
                == report.primary
            &&& whole.related.len() == report.related.len() + failures.len()
            &&& start.related.len() == report.related.len() + failures.len()
            &&& end.related.len() == report.related.len() + failures.len()
            &&& whole.related.take(report.related.len() as int) == report.related
            &&& start.related.take(report.related.len() as int) == report.related
            &&& end.related.take(report.related.len() as int) == report.related
            &&& whole.related[place] == (
                RelatedFailureRelation::Cleanup,
                failures[i].reported(
                    database,
                    SqliteDiagnosticContext {
                        stage: context.stage,
                        operation: SqliteOperation::Cleanup,
                        transaction: context.transaction,
                    },
                    effect,
                    query_id,
                    query_ordinal,
                ),
            )
            &&& start.related[place] == (
                RelatedFailureRelation::Cleanup,
                failures[i].startup_reported(query_id, query_ordinal),
            )
            &&& end.related[place] == (
                RelatedFailureRelation::Cleanup,
                failures[i].shutdown_reported(query_id, query_ordinal),
            )
        }),
    decreases failures.len(),
{
    let rest = failures.drop_last();
    if rest.len() > 0 {
        let k = if i < rest.len() {
            i
        } else {
            0
        };
        cleanups_follow_their_failure(
            rest,
            report,
            database,
            context,
            effect,
            query_id,
            query_ordinal,
            k,
        );
        assert(rest[k] == failures[k]);
    }
    let whole = sqlite_error::cleanup_reported(
        failures,
        report,
        database,
        context,
        effect,
        query_id,
        query_ordinal,
    );
    let start = sqlite_error::startup_cleanup_reported(failures, report, query_id, query_ordinal);
    let end = sqlite_error::shutdown_cleanup_reported(failures, report, query_id, query_ordinal);
    let count = report.related.len() as int;
    let whole_before = sqlite_error::cleanup_reported(
        rest,
        report,
        database,
        context,
        effect,
        query_id,
        query_ordinal,
    );
    let start_before = sqlite_error::startup_cleanup_reported(rest, report, query_id, query_ordinal);
    let end_before = sqlite_error::shutdown_cleanup_reported(rest, report, query_id, query_ordinal);
    assert(whole_before.related.take(count) =~= report.related);
    assert(start_before.related.take(count) =~= report.related);
    assert(end_before.related.take(count) =~= report.related);
    assert(whole.related.take(count) =~= whole_before.related.take(count));
    assert(start.related.take(count) =~= start_before.related.take(count));
    assert(end.related.take(count) =~= end_before.related.take(count));
}

/// A failure with failed cleanups is reported as that failure, followed by the cleanups.
pub proof fn cleanups_are_reported_behind_it(
    error: SqliteRuntimeError,
    database: Seq<char>,
    context: SqliteDiagnosticContext,
    effect: StateEffect,
    query_id: Option<Seq<char>>,
    query_ordinal: Option<usize>,
)
    requires
        error is Cleanup,
    ensures
        ({
            let (primary, failures) = (*error->primary, error->failures@);
            let shown = diagnostic::safe_path(database);
            &&& error.reported(database, context, effect, query_id, query_ordinal)
                == sqlite_error::cleanup_reported(
                failures,
                primary.reported(shown, context, effect, query_id, query_ordinal),
                shown,
                context,
                effect,
                query_id,
                query_ordinal,
            )
            &&& error.startup_reported(query_id, query_ordinal)
                == sqlite_error::startup_cleanup_reported(
                failures,
                primary.startup_reported(query_id, query_ordinal),
                query_id,
                query_ordinal,
            )
            &&& error.shutdown_reported(query_id, query_ordinal)
                == sqlite_error::shutdown_cleanup_reported(
                failures,
                primary.shutdown_reported(query_id, query_ordinal),
                query_id,
                query_ordinal,
            )
        }),
{
}

/// Whether a report tells, of the storage as a whole, what `error` is.
pub open spec fn tells_of_the_whole(
    error: SqliteRuntimeError,
    report: StorageReport,
    context: SqliteDiagnosticContext,
    query_id: Option<Seq<char>>,
    query_ordinal: Option<usize>,
) -> bool {
    match error {
        SqliteRuntimeError::InteractiveSessionAlreadyOpen => report.primary == (
        StorageProblem::Sqlite { context, problem: ProblemView::RootInteractiveSessionAlreadyOpen }),
        SqliteRuntimeError::Driver { source, .. } => report.primary == (StorageProblem::Sqlite {
            context,
            problem: ProblemView::RootDriver { query_id, query_ordinal, failure: source.kept() },
        }),
        SqliteRuntimeError::InvalidValue(_) => report.primary == (StorageProblem::Sqlite {
            context,
            problem: ProblemView::RootInvalidValue,
        }),
        SqliteRuntimeError::Internal(_) => report.primary == (StorageProblem::Sqlite {
            context,
            problem: ProblemView::RootInternalInvariant,
        }),
        SqliteRuntimeError::BackupIncomplete(_) => report.primary == (StorageProblem::Sqlite {
            context,
            problem: ProblemView::RootBackupIncomplete,
        }),
        SqliteRuntimeError::Io { path, source, .. } => report.primary == (StorageProblem::Sqlite {
            context,
            problem: ProblemView::Io {
                database: diagnostic::safe_path(path@),
                failure: source.failure(),
            },
        }),
        SqliteRuntimeError::WindowsFileSystem {
            path,
            source: WindowsFsError::Io { source, .. },
            ..
        } => report.primary == (StorageProblem::Sqlite {
            context,
            problem: ProblemView::Io {
                database: diagnostic::safe_path(path@),
                failure: source.failure(),
            },
        }),
        SqliteRuntimeError::WindowsFileSystem { path, .. } => report.primary == (
        StorageProblem::Sqlite {
            context,
            problem: ProblemView::InvalidTarget { database: diagnostic::safe_path(path@) },
        }),
        SqliteRuntimeError::InvalidTarget { path } => report.primary == (StorageProblem::Sqlite {
            context,
            problem: ProblemView::InvalidTarget { database: diagnostic::safe_path(path@) },
        }),
        SqliteRuntimeError::UnexpectedArtifact { path } => report.primary == (
        StorageProblem::Sqlite {
            context,
            problem: ProblemView::UnexpectedArtifact { database: diagnostic::safe_path(path@) },
        }),
        _ => true,
    }
}

/// At the start nothing has changed yet; what failed is placed there.
pub proof fn startup_failures_change_nothing(
    error: SqliteRuntimeError,
    query_id: Option<Seq<char>>,
    query_ordinal: Option<usize>,
)
    requires
        stands_alone(error),
    ensures
        ({
            let report = error.startup_reported(query_id, query_ordinal);
            let component = RuntimeComponent::SqliteExecutor;
            let context = SqliteDiagnosticContext {
                stage: SqliteDiagnosticStage::ProcessStartup,
                operation: SqliteOperation::Open,
                transaction: SqliteTransactionState::NotStarted,
            };
            &&& report.effect is Unchanged
            &&& report.related.len() == 0
            &&& tells_of_the_whole(error, report, context, query_id, query_ordinal)
            &&& error is Closed ==> report.primary == StorageProblem::Runtime(
                RuntimeIssue::ExecutorClosed { component, operation: RuntimeOperation::StartWorker },
            )
            &&& error matches SqliteRuntimeError::AvailableParallelism { source } ==> report.primary
                == StorageProblem::Runtime(
                RuntimeIssue::Io {
                    component,
                    operation: RuntimeOperation::DetectAvailableParallelism,
                    failure: source.failure(),
                },
            )
            &&& error is Cancelled ==> report.primary == StorageProblem::Runtime(
                RuntimeIssue::Cancelled { component, operation: RuntimeOperation::StartWorker },
            )
            &&& error matches SqliteRuntimeError::WorkerSpawn { source, .. } ==> report.primary
                == StorageProblem::Runtime(
                RuntimeIssue::Io {
                    component,
                    operation: RuntimeOperation::StartWorker,
                    failure: source.failure(),
                },
            )
            &&& error is WorkerPanicked ==> report.primary == StorageProblem::Runtime(
                RuntimeIssue::WorkerPanicked { component, operation: RuntimeOperation::StartWorker },
            )
        }),
{
}

/// A failed shutdown comes after the work was done; only a broken rule of the storage itself
/// leaves the outcome unknown.
pub proof fn shutdown_failures_come_after_the_work(
    error: SqliteRuntimeError,
    query_id: Option<Seq<char>>,
    query_ordinal: Option<usize>,
)
    requires
        stands_alone(error),
    ensures
        ({
            let report = error.shutdown_reported(query_id, query_ordinal);
            let component = RuntimeComponent::SqliteExecutor;
            let operation = RuntimeOperation::Shutdown;
            let context = SqliteDiagnosticContext {
                stage: SqliteDiagnosticStage::Shutdown,
                operation: SqliteOperation::Shutdown,
                transaction: if error is Internal {
                    SqliteTransactionState::OutcomeUnknown
                } else {
                    SqliteTransactionState::FinalizationFailed
                },
            };
            &&& report.effect is OutcomeUnknown <==> error is Internal
            &&& report.effect is AppliedFinalizationFailed <==> !(error is Internal)
            &&& report.related.len() == 0
            &&& tells_of_the_whole(error, report, context, query_id, query_ordinal)
            &&& error is Closed ==> report.primary == StorageProblem::Runtime(
                RuntimeIssue::ExecutorClosed { component, operation },
            )
            &&& error matches SqliteRuntimeError::AvailableParallelism { source } ==> report.primary
                == StorageProblem::Runtime(
                RuntimeIssue::Io { component, operation, failure: source.failure() },
            )
            &&& error is Cancelled ==> report.primary == StorageProblem::Runtime(
                RuntimeIssue::Cancelled { component, operation },
            )
            &&& error matches SqliteRuntimeError::WorkerSpawn { source, .. } ==> report.primary
                == StorageProblem::Runtime(
                RuntimeIssue::Io { component, operation, failure: source.failure() },
            )
            &&& error is WorkerPanicked ==> report.primary == StorageProblem::Runtime(
                RuntimeIssue::WorkerPanicked { component, operation },
            )
        }),
{
}

/// A failure with a failed cleanup is at least as severe as either of them.
pub proof fn related_failures_are_kept(
    report: StorageReport,
    relation: RelatedFailureRelation,
    other: StorageReport,
)
    ensures
        ({
            let both = report.with(relation, other);
            &&& both.primary == report.primary
            &&& both.related == report.related.push((relation, other))
            &&& both.effect == report.effect || both.effect == other.effect
            &&& report.effect is OutcomeUnknown || other.effect is OutcomeUnknown ==> both.effect
                is OutcomeUnknown
            &&& both.effect is Unchanged ==> report.effect is Unchanged && other.effect is Unchanged
        }),
{
    diagnostic_laws::the_worse_effect_counts(report.effect, other.effect);
}

} // verus!
