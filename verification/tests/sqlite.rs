use att_runtime::diagnostic::{
    Diagnostic, IoError, RuntimeIssue, SafeIdentifier, SafeIoKind, SafePath,
    SqliteDiagnosticContext, SqliteDiagnosticStage, SqliteDriverFailure, SqliteDriverKind,
    SqliteIssue, SqliteOperation, SqliteProblem, SqliteTransactionState, StateEffect,
};
use att_runtime::performance::{
    RunPerformanceCounters, SqliteTransactionControl, SqliteTransactionScope,
};
use att_runtime::sqlite_bulk::{
    build_bulk_insert_statement, bulk_insert_rows_per_statement, sqlite_variable_limit,
};
use att_runtime::sqlite_copy::{BackupStep, CopyReply, CopyRequest, CopyRun};
use att_runtime::sqlite_creation::{
    initialize_new_database, run_create_database, InitializationReply, InitializationRequest,
};
use att_runtime::sqlite_database::CreateDatabaseError;
use att_runtime::sqlite_error::{SqliteDriverCause, SqliteDriverError, SqliteRuntimeError};
use att_runtime::sqlite_open::{
    after_reading_journal_mode, after_switching_journal_mode, map_query_open_error, next_setting,
    open_failure, preflight_existing_file, ConnectionSetting, ExistingFileError,
    ExistingFileErrorOrRuntime, JournalStep, OpenMode, QueryExistingDatabaseError,
    CONNECTION_CACHE_SIZE_KIB, NEW_DATABASE_PAGE_SIZE_BYTES,
};
use att_runtime::sqlite_plan::{
    validate_batch, validate_query_snapshot, validate_sqlite_value, validate_statement,
    validate_transaction_plan, SqliteBatch, SqliteCommand, SqliteQuery, SqliteRow,
    SqliteTransactionPlan, SqliteTransactionStep, SqliteValue,
};
use att_runtime::sqlite_query::{
    read_query_rows_unchecked, run_query_existing, run_query_snapshot_existing, QueryReply,
    SnapshotReply, SnapshotRequest,
};
use att_runtime::sqlite_row::{own_sqlite_row, SqliteColumn};
use att_runtime::sqlite_session::{
    await_transaction, finalize_interactive_connection, lost_transaction, open_transaction_session,
    panicked_finalization_result, FinalRollback, InteractiveSessionControl, InteractiveSessionSlot,
    OpenSqliteTransactionSessionError, SessionCommand, SqliteInteractiveSessionFinalization, SqliteInteractiveSessionFinalizationError,
    SqliteInteractiveSessionFinalizationFailure, TransactionSessionState, SESSION_CLOSED,
    SESSION_FINALIZING, SESSION_INDETERMINATE, SESSION_OPEN,
};
use att_runtime::sqlite_storage::{
    acquire_short_admission, lost_final_transaction, lost_session_opening, short_worker_failure,
    short_worker_name, RusqliteFinalTransactionExecutor, RusqliteStorageConfiguration, ShortStop,
    ShutdownStart, SpecialWorker, StorageLife,
};
use att_runtime::sqlite_transaction::{
    execute_transaction_control, map_final_transaction_error, open_transaction_connection,
    rollback_after_failure, rollback_requirement_failure, run_final_transaction, run_transaction,
    ExecuteFinalTransactionError, ExecuteTransactionError, FirstRowReply, RollbackReply,
    TransactionReply, TransactionRequest,
};
use att_runtime::sqlite_wait::{
    connection_close_result, install_sqlite_busy_cancellation, sqlite_busy_wait_cancelled,
    suspend_att_sqlite_cancellation, wait_for_sqlite_unlock, AttSqliteCancellationContext, LockWait,
    ProbeReply, SqliteWaitCancellation,
};
use rusqlite::backup::{Backup, StepResult};
use rusqlite::limits::Limit;
use rusqlite::types::{Value, ValueRef};
use rusqlite::{params_from_iter, CachedStatement, Connection, Row};

fn text(value: &str) -> String {
    value.to_owned()
}

fn driver_error(error: rusqlite::Error) -> SqliteDriverError {
    let shown = error.to_string();
    let cause = match error {
        rusqlite::Error::SqliteFailure(failure, _) => SqliteDriverCause::SqliteFailure {
            extended_code: failure.extended_code,
        },
        rusqlite::Error::InvalidColumnIndex(index) => {
            SqliteDriverCause::InvalidColumnIndex { index }
        }
        rusqlite::Error::InvalidParameterCount(actual, expected) => {
            SqliteDriverCause::InvalidParameterCount { actual, expected }
        }
        rusqlite::Error::SqlInputError { offset, .. } => {
            SqliteDriverCause::SqlInputError { offset }
        }
        _ => SqliteDriverCause::Other,
    };
    SqliteDriverError { cause, text: shown }
}

fn failure(extended_code: i32) -> SqliteDriverError {
    driver_error(rusqlite::Error::SqliteFailure(
        rusqlite::ffi::Error::new(extended_code),
        None,
    ))
}

fn bound(value: &SqliteValue) -> Value {
    match value {
        SqliteValue::Null => Value::Null,
        SqliteValue::Integer(number) => Value::Integer(*number),
        SqliteValue::Real(bits) => Value::Real(f64::from_bits(*bits)),
        SqliteValue::Text(text) => Value::Text(text.clone()),
        SqliteValue::Blob(bytes) => Value::Blob(bytes.clone()),
    }
}

fn all_bound(values: &[SqliteValue]) -> Vec<Value> {
    values.iter().map(bound).collect()
}

fn columns(row: &Row<'_>, count: usize) -> Vec<Result<SqliteColumn, SqliteDriverError>> {
    (0..count)
        .map(|index| match row.get_ref(index).map_err(driver_error)? {
            ValueRef::Null => Ok(SqliteColumn::Null),
            ValueRef::Integer(number) => Ok(SqliteColumn::Integer(number)),
            ValueRef::Real(number) => Ok(SqliteColumn::Real(number.to_bits())),
            ValueRef::Text(bytes) => Ok(SqliteColumn::Text(bytes.to_vec())),
            ValueRef::Blob(bytes) => Ok(SqliteColumn::Blob(bytes.to_vec())),
        })
        .collect()
}

fn done(result: rusqlite::Result<()>) -> TransactionReply {
    TransactionReply::Done(result.map_err(driver_error))
}

/// Runs a plan on a connection; counts the INSERT statements of bulk steps.
fn execute(
    connection: &Connection,
    plan: &SqliteTransactionPlan,
    performance: &mut RunPerformanceCounters,
    inserts: &mut usize,
) -> Result<(), ExecuteTransactionError> {
    let mut run = run_transaction(plan)?;
    let mut prepared: Option<CachedStatement<'_>> = None;
    loop {
        let reply = match run.request() {
            TransactionRequest::Control { statement, .. } => {
                prepared = None;
                done(connection.execute_batch(statement))
            }
            TransactionRequest::Prepare { statement } => {
                match connection.prepare_cached(statement) {
                    Ok(statement) => {
                        let count = statement.parameter_count();
                        prepared = Some(statement);
                        TransactionReply::Count(Ok(count))
                    }
                    Err(error) => TransactionReply::Count(Err(driver_error(error))),
                }
            }
            TransactionRequest::Execute { parameters } => {
                let statement = prepared.as_mut().expect("语句已准备");
                done(
                    statement
                        .execute(params_from_iter(all_bound(parameters)))
                        .map(|_| ()),
                )
            }
            TransactionRequest::Exists { parameters } => {
                let statement = prepared.as_mut().expect("语句已准备");
                TransactionReply::Found(
                    statement
                        .exists(params_from_iter(all_bound(parameters)))
                        .map_err(driver_error),
                )
            }
            TransactionRequest::FirstRow { parameters } => {
                let statement = prepared.as_mut().expect("语句已准备");
                let count = statement.column_count();
                TransactionReply::FirstRow(
                    match statement.query(params_from_iter(all_bound(parameters))) {
                        Err(error) => FirstRowReply::BindFailed(driver_error(error)),
                        Ok(mut rows) => match rows.next() {
                            Err(error) => FirstRowReply::StepFailed(driver_error(error)),
                            Ok(None) => FirstRowReply::Absent,
                            Ok(Some(row)) => FirstRowReply::Row(columns(row, count)),
                        },
                    },
                )
            }
            TransactionRequest::Bind { index, value } => {
                let statement = prepared.as_mut().expect("语句已准备");
                done(statement.raw_bind_parameter(index, bound(value)))
            }
            TransactionRequest::ExecuteBound => {
                let statement = prepared.as_mut().expect("语句已准备");
                TransactionReply::Count(statement.raw_execute().map_err(driver_error))
            }
            TransactionRequest::ExistsBound => {
                let statement = prepared.as_mut().expect("语句已准备");
                let mut rows = statement.raw_query();
                TransactionReply::Found(
                    rows.next().map(|row| row.is_some()).map_err(driver_error),
                )
            }
            TransactionRequest::VariableLimit => TransactionReply::Limit(
                connection
                    .limit(Limit::SQLITE_LIMIT_VARIABLE_NUMBER)
                    .map_err(driver_error),
            ),
            TransactionRequest::PrepareInsert { statement } => {
                match connection.prepare_cached(statement) {
                    Ok(statement) => {
                        prepared = Some(statement);
                        done(Ok(()))
                    }
                    Err(error) => done(Err(error)),
                }
            }
            TransactionRequest::ExecuteInsert {
                shared,
                values,
                start,
                count,
            } => {
                *inserts += 1;
                let statement = prepared.as_mut().expect("语句已准备");
                let mut parameters = all_bound(shared);
                parameters.extend(all_bound(&values[start..start + count]));
                done(statement.execute(params_from_iter(parameters)).map(|_| ()))
            }
            TransactionRequest::Autocommit => {
                prepared = None;
                TransactionReply::Autocommit(connection.is_autocommit())
            }
            TransactionRequest::Nothing => break,
        };
        run = run.advance(reply, false, performance);
    }
    run.into_result()
}

fn transact(
    connection: &Connection,
    steps: Vec<SqliteTransactionStep>,
) -> Result<(), ExecuteTransactionError> {
    execute(
        connection,
        &SqliteTransactionPlan::new(steps),
        &mut RunPerformanceCounters::new(),
        &mut 0,
    )
}

fn read(connection: &Connection, statement: &str, parameters: &[SqliteValue]) -> QueryReply {
    let mut prepared = match connection.prepare(statement) {
        Ok(prepared) => prepared,
        Err(error) => return QueryReply::PrepareFailed(driver_error(error)),
    };
    let count = prepared.column_count();
    let mut cursor = match prepared.query(params_from_iter(all_bound(parameters))) {
        Ok(cursor) => cursor,
        Err(error) => return QueryReply::BindFailed(driver_error(error)),
    };
    let mut rows = Vec::new();
    loop {
        match cursor.next() {
            Ok(Some(row)) => rows.push(columns(row, count)),
            Ok(None) => return QueryReply::Rows { rows, end: Ok(()) },
            Err(error) => {
                return QueryReply::Rows {
                    rows,
                    end: Err(driver_error(error)),
                }
            }
        }
    }
}

fn rows_of(connection: &Connection, statement: &str) -> Vec<SqliteRow> {
    read_query_rows_unchecked(read(connection, statement, &[]), false).expect("查询应成功")
}

fn snapshot(
    connection: &Connection,
    queries: &Vec<SqliteQuery>,
    performance: &mut RunPerformanceCounters,
    mut after_query: impl FnMut(usize),
) -> Result<Vec<Vec<SqliteRow>>, QueryExistingDatabaseError> {
    let mut run = run_query_snapshot_existing(queries)?;
    let mut read_queries = 0;
    loop {
        let reply = match run.request() {
            SnapshotRequest::Control { statement, .. } => {
                SnapshotReply::Done(connection.execute_batch(statement).map_err(driver_error))
            }
            SnapshotRequest::Read {
                statement,
                parameters,
            } => {
                let reply = read(connection, statement, parameters);
                after_query(read_queries);
                read_queries += 1;
                SnapshotReply::Rows(reply)
            }
            SnapshotRequest::Autocommit => SnapshotReply::Autocommit(connection.is_autocommit()),
            SnapshotRequest::Nothing => break,
        };
        run = run.advance(reply, false, performance);
    }
    run.into_result()
}

fn memory() -> Connection {
    Connection::open_in_memory().expect("内存数据库应可打开")
}

fn values_table() -> Connection {
    let connection = memory();
    connection
        .execute_batch("CREATE TABLE values_table (id INTEGER PRIMARY KEY, n INTEGER, r REAL, t TEXT, b BLOB, z BLOB)")
        .expect("测试表应可创建");
    connection
}

fn command(statement: &str) -> SqliteTransactionStep {
    SqliteTransactionStep::Execute(SqliteCommand::new(text(statement), Vec::new()))
}

fn integers(rows: &[&[i64]]) -> Vec<Vec<SqliteValue>> {
    rows.iter()
        .map(|row| row.iter().map(|value| SqliteValue::Integer(*value)).collect())
        .collect()
}

fn integer_row(values: &[i64]) -> SqliteRow {
    SqliteRow::new(values.iter().map(|value| SqliteValue::Integer(*value)).collect())
}

fn query(statement: &str) -> SqliteQuery {
    SqliteQuery::new(text(statement), Vec::new())
}

#[test]
fn driver_leaf_preserves_database_query_column_codes_and_transaction() {
    let source = SqliteRuntimeError::QueryContext {
        query_id: text("load_units"),
        ordinal: 3,
        source: Box::new(SqliteRuntimeError::Driver {
            operation: "query",
            source: driver_error(rusqlite::Error::InvalidColumnIndex(5)),
        }),
    };
    let context = SqliteDiagnosticContext::new(
        SqliteDiagnosticStage::Translate,
        SqliteOperation::Query,
        SqliteTransactionState::Active,
    );
    let report = source.diagnostic_report("database.sqlite", context, StateEffect::Unchanged);
    assert_eq!(report.effect, StateEffect::Unchanged);
    assert!(report.related.is_empty());
    assert_eq!(
        report.primary,
        Diagnostic::Sqlite(SqliteIssue {
            context,
            problem: SqliteProblem::Driver {
                database: SafePath::new("database.sqlite"),
                query_id: SafeIdentifier::new("load_units").ok(),
                query_ordinal: Some(3),
                failure: SqliteDriverFailure {
                    kind: SqliteDriverKind::InvalidColumnIndex,
                    primary_code: None,
                    extended_code: None,
                    column_index: Some(5),
                    column_name: None,
                    parameter_actual: None,
                    parameter_expected: None,
                    changed_rows: None,
                    sql_offset: None,
                    database_index: None,
                },
            },
        })
    );
}

#[test]
fn nested_cancellation_suspensions_restore_only_after_lifo_outer_drop() {
    let mut context = AttSqliteCancellationContext::new();
    let mut outer = suspend_att_sqlite_cancellation(&mut context);
    let mut inner = suspend_att_sqlite_cancellation(&mut context);
    inner.end(&mut context);
    assert!(!context.is_probed());
    assert!(
        !context.is_cancelled(ProbeReply::Answered(true)),
        "外层 guard 存活时取消仍应暂停"
    );
    outer.end(&mut context);
    assert!(
        context.is_cancelled(ProbeReply::Answered(true)),
        "最外层 guard 销毁后必须恢复取消"
    );
}

#[test]
fn nested_cancellation_suspensions_restore_only_after_out_of_order_last_drop() {
    let mut context = AttSqliteCancellationContext::new();
    let mut outer = suspend_att_sqlite_cancellation(&mut context);
    let mut inner = suspend_att_sqlite_cancellation(&mut context);
    outer.end(&mut context);
    outer.end(&mut context);
    assert!(
        !context.is_cancelled(ProbeReply::Answered(true)),
        "后创建的 guard 存活时乱序销毁不得恢复取消"
    );
    inner.end(&mut context);
    assert!(context.is_cancelled(ProbeReply::Answered(true)));
    assert!(!context.is_cancelled(ProbeReply::Answered(false)));
    assert!(
        context.is_cancelled(ProbeReply::Panicked),
        "取消探针 panic 时必须停止工作"
    );
    assert!(context.can_suspend());
}

#[test]
fn direct_connection_does_not_replace_the_ordinary_tls_busy_cancellation() {
    let mut slot = None;
    let mut ordinary_cancellation = SqliteWaitCancellation::new();
    ordinary_cancellation.request();
    install_sqlite_busy_cancellation(&mut slot, ordinary_cancellation);
    let mut context = AttSqliteCancellationContext::new();
    let mut suspension = suspend_att_sqlite_cancellation(&mut context);
    assert!(!context.is_cancelled(ProbeReply::Answered(true)));
    assert!(
        sqlite_busy_wait_cancelled(&slot),
        "直接连接不得覆盖普通 runtime worker 的 TLS 取消事实"
    );
    suspension.end(&mut context);
    drop(context);
    assert!(
        sqlite_busy_wait_cancelled(&slot),
        "直接连接销毁也不得改写普通 TLS 取消事实"
    );
    install_sqlite_busy_cancellation(&mut slot, SqliteWaitCancellation::new());
    assert!(!sqlite_busy_wait_cancelled(&slot));
}

#[test]
fn waits_are_given_up_only_when_asked() {
    let mut slot = None;
    assert!(!sqlite_busy_wait_cancelled(&slot));
    let mut cancellation = SqliteWaitCancellation::new();
    install_sqlite_busy_cancellation(&mut slot, cancellation);
    assert!(!sqlite_busy_wait_cancelled(&slot));
    cancellation.request();
    install_sqlite_busy_cancellation(&mut slot, cancellation);
    assert!(sqlite_busy_wait_cancelled(&slot));
    assert_eq!(wait_for_sqlite_unlock(false, false), LockWait::Sleep);
    assert_eq!(wait_for_sqlite_unlock(true, false), LockWait::TryAgain);
    assert_eq!(wait_for_sqlite_unlock(false, true), LockWait::GiveUp);
    assert_eq!(wait_for_sqlite_unlock(true, true), LockWait::GiveUp);

    assert_eq!(
        connection_close_result(Err(failure(1)), Err(failure(2)), Err(failure(5))),
        Err(failure(5))
    );
    assert_eq!(
        connection_close_result(Ok(()), Err(failure(2)), Ok(())),
        Err(failure(2))
    );
    assert_eq!(connection_close_result(Ok(()), Ok(()), Ok(())), Ok(()));
}

#[test]
fn production_parallelism_probe_failure_is_a_typed_os_diagnostic() {
    let error = RusqliteStorageConfiguration::production()
        .start_with_available_parallelism(Err(IoError {
            kind: SafeIoKind::PermissionDenied,
            raw_os_code: Some(5),
            text: text("denied"),
        }))
        .expect_err("并行度探测失败时不得启动 SQLite 根");
    assert!(matches!(
        &error,
        SqliteRuntimeError::AvailableParallelism { source } if source.raw_os_code == Some(5)
    ));
    let report = error.startup_diagnostic_report();
    assert!(matches!(
        report.primary,
        Diagnostic::Runtime(RuntimeIssue::Io { failure, .. }) if failure.raw_os_code == Some(5)
    ));
}

#[test]
fn production_short_worker_width_caps_available_parallelism_at_four() {
    let production = RusqliteStorageConfiguration::production();
    assert!(production.asks_for_parallelism());
    assert_eq!(production.worker_stack_bytes(), 4 * 1024 * 1024);
    assert_eq!(production.start_with_available_parallelism(Ok(12)), Ok(4));
    assert_eq!(production.start_with_available_parallelism(Ok(3)), Ok(3));
    let fixed = RusqliteStorageConfiguration::new(7, 65_536);
    assert!(!fixed.asks_for_parallelism());
    assert_eq!(fixed.start_with_available_parallelism(Ok(1)), Ok(7));
    assert_eq!(short_worker_name(2), "att-sqlite-short-2");
}

#[test]
fn driver_diagnostic_exposes_primary_and_extended_codes_but_not_driver_text() {
    let source = driver_error(rusqlite::Error::SqliteFailure(
        rusqlite::ffi::Error::new(rusqlite::ffi::SQLITE_CONSTRAINT_UNIQUE),
        Some(text("SQL_AND_PARAMETER_BODY_SENTINEL")),
    ));
    let context = SqliteDiagnosticContext::new(
        SqliteDiagnosticStage::Translate,
        SqliteOperation::Execute,
        SqliteTransactionState::NotStarted,
    );
    let report = SqliteRuntimeError::Driver {
        operation: "execute_transaction",
        source,
    }
    .diagnostic_report(
        "D:/projects/game/project.db",
        context,
        StateEffect::ProgressPreserved,
    );
    assert!(!format!("{report:?}").contains("SQL_AND_PARAMETER_BODY_SENTINEL"));
    match report.primary {
        Diagnostic::Sqlite(SqliteIssue {
            context: shown,
            problem: SqliteProblem::Driver { failure, .. },
        }) => {
            assert_eq!(shown.operation, SqliteOperation::Execute);
            assert_eq!(failure.primary_code, Some(19));
            assert_eq!(failure.extended_code, Some(2067));
        }
        _ => panic!("驱动错误必须成为驱动诊断"),
    }
}

#[test]
fn multi_query_read_rolls_back_query_failure_and_reports_commit_failure_as_read_error() {
    let connection = memory();
    let mut performance = RunPerformanceCounters::new();
    let query_error = snapshot(
        &connection,
        &vec![
            query("SELECT 1").with_id(text("snapshot.first")),
            query("SELECT missing FROM absent").with_id(text("snapshot.missing_table")),
        ],
        &mut performance,
        |_| {},
    )
    .expect_err("第二条查询失败必须终止快照");
    assert!(connection.is_autocommit(), "查询失败后必须结束读事务");
    let QueryExistingDatabaseError::QueryFailed(query_error) = query_error else {
        panic!("查询失败必须保留原因")
    };
    assert!(matches!(
        &query_error,
        SqliteRuntimeError::QueryContext {
            query_id,
            ordinal: 1,
            source,
        } if query_id == "snapshot.missing_table"
            && matches!(source.as_ref(), SqliteRuntimeError::Driver {
                operation: "准备查询",
                ..
            })
    ));
    let report = query_error.diagnostic_report(
        "D:/projects/game/project.db",
        SqliteDiagnosticContext::new(
            SqliteDiagnosticStage::Project,
            SqliteOperation::Query,
            SqliteTransactionState::RolledBack,
        ),
        StateEffect::Unchanged,
    );
    assert!(matches!(
        &report.primary,
        Diagnostic::Sqlite(SqliteIssue {
            problem: SqliteProblem::Driver {
                query_id: Some(query_id),
                query_ordinal: Some(1),
                ..
            },
            ..
        }) if query_id.as_str() == "snapshot.missing_table"
    ));
    let read = performance.snapshot().sqlite_transactions.read_snapshot;
    assert_eq!(read.begin.succeeded, 1);
    assert_eq!(read.rollback.succeeded, 1);
    assert_eq!(read.commit.attempted, 0);

    let commit_error = snapshot(
        &connection,
        &vec![query("SELECT 1")],
        &mut RunPerformanceCounters::new(),
        |_| {
            connection
                .execute_batch("ROLLBACK")
                .expect("测试注入应先结束读事务")
        },
    )
    .expect_err("被测试注入提前结束的事务必须令 COMMIT 失败");
    assert!(connection.is_autocommit());
    assert!(matches!(
        commit_error,
        QueryExistingDatabaseError::QueryFailed(SqliteRuntimeError::Driver {
            operation: "结束只读查询快照",
            ..
        })
    ));
}

#[test]
fn multi_query_read_preserves_order_without_row_caps() {
    let connection = memory();
    let queries: Vec<SqliteQuery> = (0_i64..8)
        .map(|value| SqliteQuery::new(text("SELECT ?1"), vec![SqliteValue::Integer(value)]))
        .collect();
    let results = snapshot(
        &connection,
        &queries,
        &mut RunPerformanceCounters::new(),
        |_| {},
    )
    .expect("超过四组查询应在同一快照中保持调用顺序");
    assert_eq!(
        results,
        (0_i64..8)
            .map(|value| vec![integer_row(&[value])])
            .collect::<Vec<_>>()
    );
    let rows = snapshot(
        &connection,
        &vec![query("SELECT 1 UNION ALL SELECT 2")],
        &mut RunPerformanceCounters::new(),
        |_| {},
    )
    .expect("查询结果不得被行数预算拒绝");
    assert_eq!(rows[0].len(), 2);
}

#[test]
fn release_stress_large_query_and_batch_have_no_att_capacity_limit() {
    const ROWS: usize = 230_000;
    let connection = values_table();
    let parameter_sets = (1..=ROWS)
        .map(|id| vec![SqliteValue::Integer(id as i64)])
        .collect();
    transact(
        &connection,
        vec![SqliteTransactionStep::ExecuteMany(SqliteBatch::bulk_insert(
            text("INSERT INTO values_table (id)"),
            1,
            Vec::new(),
            parameter_sets,
        ))],
    )
    .expect("230,000 组参数必须在一个事务内成功");
    let rows = rows_of(&connection, "SELECT id FROM values_table ORDER BY id");
    assert_eq!(rows.len(), ROWS);
    assert_eq!(rows.last(), Some(&integer_row(&[ROWS as i64])));
}

#[test]
fn bulk_insert_uses_connection_variable_limit_and_reuses_shared_parameters() {
    let connection = memory();
    connection
        .execute_batch(
            "CREATE TABLE bulk_values (owner TEXT NOT NULL, id INTEGER NOT NULL, label TEXT NOT NULL, PRIMARY KEY (owner, id))",
        )
        .expect("bulk 测试表应可创建");
    let bundled_limit = connection
        .limit(Limit::SQLITE_LIMIT_VARIABLE_NUMBER)
        .expect("bundled SQLite 应公开变量上限");
    assert_eq!(
        sqlite_variable_limit(Ok(bundled_limit), false).expect("运行时应读取同一真实上限"),
        usize::try_from(bundled_limit).expect("SQLite 变量上限应为正整数")
    );
    connection
        .set_limit(Limit::SQLITE_LIMIT_VARIABLE_NUMBER, 5)
        .expect("测试应可降低当前连接变量上限");

    let batch = SqliteBatch::bulk_insert_flat(
        text("INSERT INTO bulk_values (owner, id, label)"),
        2,
        vec![SqliteValue::Text(text("builtin"))],
        (1_i64..=5)
            .flat_map(|id| {
                [
                    SqliteValue::Integer(id),
                    SqliteValue::Text(format!("value-{id}")),
                ]
            })
            .collect(),
    );
    validate_batch(&batch).expect("bulk 描述应合法");
    let mut executed = 0;
    execute(
        &connection,
        &SqliteTransactionPlan::new(vec![SqliteTransactionStep::ExecuteMany(batch)]),
        &mut RunPerformanceCounters::new(),
        &mut executed,
    )
    .expect("低变量上限应自动切成多个真实 INSERT");

    assert_eq!(
        executed, 3,
        "1 个 shared 加每行 2 个变量时每块只能容纳 2 行"
    );
    let rows = rows_of(
        &connection,
        "SELECT owner, id, label FROM bulk_values ORDER BY id",
    );
    assert_eq!(rows.len(), 5);
    assert!(rows
        .iter()
        .all(|row| row.values()[0] == SqliteValue::Text(text("builtin"))));
    assert_eq!(
        rows[4].values()[2],
        SqliteValue::Text(text("value-5"))
    );
    assert_eq!(
        build_bulk_insert_statement("INSERT INTO bulk_values (owner, id, label)", 1, 2, 2)
            .expect("bulk SQL 应可生成"),
        "INSERT INTO bulk_values (owner, id, label) VALUES (?1, ?2, ?3), (?1, ?4, ?5)"
    );
}

#[test]
fn bulk_insert_planning_names_what_does_not_fit() {
    assert!(matches!(
        bulk_insert_rows_per_statement(2, 1, 2),
        Err(SqliteRuntimeError::Driver {
            operation: "规划 bulk INSERT 变量分块",
            source,
        }) if source.cause == SqliteDriverCause::InvalidParameterCount { actual: 3, expected: 2 }
            && source.text == rusqlite::Error::InvalidParameterCount(3, 2).to_string()
    ));
    assert!(matches!(
        bulk_insert_rows_per_statement(2, 1, 0),
        Err(SqliteRuntimeError::Internal("bulk INSERT 每行参数数量不得为零"))
    ));
    assert!(matches!(
        bulk_insert_rows_per_statement(2, usize::MAX, 1),
        Err(SqliteRuntimeError::Internal("bulk INSERT 单行参数数量溢出"))
    ));
    assert!(matches!(
        build_bulk_insert_statement("INSERT", 0, 1, 0),
        Err(SqliteRuntimeError::Internal("bulk INSERT 语句不得包含零个 VALUES 元组"))
    ));
    assert!(matches!(
        sqlite_variable_limit(Ok(0), false),
        Err(SqliteRuntimeError::Internal("SQLite 变量上限必须为正整数"))
    ));
    assert!(matches!(
        sqlite_variable_limit(Err(failure(5)), true),
        Err(SqliteRuntimeError::Cancelled {
            operation: "读取 SQLite 变量上限"
        })
    ));
}

#[test]
fn flat_bulk_insert_rejects_zero_width_and_incomplete_tail() {
    for batch in [
        SqliteBatch::bulk_insert_flat(
            text("INSERT INTO values_table (id)"),
            0,
            Vec::new(),
            vec![SqliteValue::Integer(1)],
        ),
        SqliteBatch::bulk_insert_flat(
            text("INSERT INTO values_table (id, value)"),
            2,
            Vec::new(),
            vec![SqliteValue::Integer(1)],
        ),
    ] {
        assert!(matches!(
            validate_batch(&batch),
            Err(SqliteRuntimeError::Internal(_))
        ));
    }
}

#[test]
fn bulk_insert_failure_in_later_chunk_rolls_back_the_whole_transaction() {
    let connection = memory();
    connection
        .execute_batch("CREATE TABLE bulk_values (id INTEGER PRIMARY KEY)")
        .expect("bulk 测试表应可创建");
    connection
        .set_limit(Limit::SQLITE_LIMIT_VARIABLE_NUMBER, 1)
        .expect("测试应强制每块只有一行");
    let plan = SqliteTransactionPlan::new(vec![SqliteTransactionStep::ExecuteMany(
        SqliteBatch::bulk_insert_flat(
            text("INSERT INTO bulk_values (id)"),
            1,
            Vec::new(),
            vec![
                SqliteValue::Integer(1),
                SqliteValue::Integer(2),
                SqliteValue::Integer(1),
            ],
        ),
    )]);
    validate_transaction_plan(&plan).expect("测试计划应合法");

    let result = execute(
        &connection,
        &plan,
        &mut RunPerformanceCounters::new(),
        &mut 0,
    );

    assert!(matches!(
        result,
        Err(ExecuteTransactionError::NotCommitted(
            SqliteRuntimeError::Driver {
                operation: "执行 bulk INSERT",
                ..
            }
        ))
    ));
    assert!(connection.is_autocommit(), "失败后必须确认事务已回滚");
    assert_eq!(
        rows_of(&connection, "SELECT COUNT(*) FROM bulk_values"),
        [integer_row(&[0])],
        "较早块的成功写入不得逃出失败事务"
    );
}

#[test]
fn bulk_insert_is_rejected_by_exactly_one_and_requirement_steps() {
    let batch = || {
        SqliteBatch::bulk_insert(
            text("INSERT INTO values_table (id)"),
            1,
            Vec::new(),
            vec![vec![SqliteValue::Integer(1)]],
        )
    };
    for step in [
        SqliteTransactionStep::ExecuteManyExactlyOne(batch()),
        SqliteTransactionStep::RequireNoRowsMany(batch()),
    ] {
        let error = validate_transaction_plan(&SqliteTransactionPlan::new(vec![step]))
            .expect_err("bulk INSERT 不得被解释为 ExactlyOne 或 Require");
        assert!(matches!(error, SqliteRuntimeError::Internal(_)));
    }
}

#[test]
fn typed_rusqlite_parameter_count_keeps_safe_actual_and_expected_counts() {
    let source = SqliteRuntimeError::driver(
        "绑定批量命令参数",
        driver_error(rusqlite::Error::InvalidParameterCount(3, 5)),
        false,
    );
    let report = source.diagnostic_report(
        "D:/projects/game/project.db",
        SqliteDiagnosticContext::new(
            SqliteDiagnosticStage::Extract,
            SqliteOperation::Execute,
            SqliteTransactionState::Active,
        ),
        StateEffect::Unchanged,
    );
    match report.primary {
        Diagnostic::Sqlite(SqliteIssue {
            problem: SqliteProblem::Driver { failure, .. },
            ..
        }) => {
            assert_eq!(failure.kind, SqliteDriverKind::InvalidParameterCount);
            assert_eq!(failure.parameter_actual, Some(3));
            assert_eq!(failure.parameter_expected, Some(5));
        }
        _ => panic!("参数计数必须成为驱动诊断"),
    }
}

#[test]
fn multi_query_read_rejects_empty_but_accepts_more_than_four_queries() {
    assert!(matches!(
        run_query_snapshot_existing(&Vec::new()),
        Err(QueryExistingDatabaseError::QueryFailed(
            SqliteRuntimeError::InvalidValue("只读快照查询集合不得为空")
        ))
    ));

    let queries = (0..8).map(|_| query("SELECT 1")).collect::<Vec<_>>();
    validate_query_snapshot(&queries).expect("同一快照可执行任意数量的非空查询集合");
}

#[test]
fn create_query_and_transaction_preserve_all_sqlite_values() {
    let connection = memory();
    let commands = vec![SqliteCommand::new(
        text("CREATE TABLE values_table (id INTEGER PRIMARY KEY, n INTEGER, r REAL, t TEXT, b BLOB, z BLOB)"),
        Vec::new(),
    )];
    let mut performance = RunPerformanceCounters::new();
    initialize(&connection, &commands, &mut performance).expect("数据库应可创建");
    let counts = performance
        .snapshot()
        .sqlite_transactions
        .database_initialization;
    assert_eq!(counts.begin.succeeded, 1);
    assert_eq!(counts.commit.succeeded, 1);
    assert_eq!(counts.rollback.attempted, 0);

    transact(
        &connection,
        vec![SqliteTransactionStep::ExecuteMany(SqliteBatch::new(
            text("INSERT INTO values_table (id, n, r, t, b, z) VALUES (?1, ?2, ?3, ?4, ?5, ?6)"),
            vec![vec![
                SqliteValue::Integer(1),
                SqliteValue::Integer(-9),
                SqliteValue::Real(1.25_f64.to_bits()),
                SqliteValue::Text(text("文本")),
                SqliteValue::Blob(vec![0, 1, 255]),
                SqliteValue::Null,
            ]],
        ))],
    )
    .expect("批量事务应可提交");
    assert_eq!(
        rows_of(
            &connection,
            "SELECT n, r, t, b, z FROM values_table ORDER BY id"
        ),
        vec![SqliteRow::new(vec![
            SqliteValue::Integer(-9),
            SqliteValue::Real(1.25_f64.to_bits()),
            SqliteValue::Text(text("文本")),
            SqliteValue::Blob(vec![0, 1, 255]),
            SqliteValue::Null,
        ])]
    );
}

fn apply(connection: &Connection, setting: ConnectionSetting) -> Result<(), SqliteDriverError> {
    match setting {
        ConnectionSetting::BusyHandler => Ok(()),
        ConnectionSetting::CacheSize => connection
            .pragma_update(None, "cache_size", CONNECTION_CACHE_SIZE_KIB)
            .map_err(driver_error),
        ConnectionSetting::TempStoreInMemory => connection
            .pragma_update(None, "temp_store", "MEMORY")
            .map_err(driver_error),
        ConnectionSetting::ForeignKeys => connection
            .pragma_update(None, "foreign_keys", true)
            .map_err(driver_error),
        ConnectionSetting::QueryOnly => connection
            .pragma_update(None, "query_only", true)
            .map_err(driver_error),
        ConnectionSetting::FullSynchronous => connection
            .pragma_update(None, "synchronous", "FULL")
            .map_err(driver_error),
        ConnectionSetting::WriteAheadLog => loop {
            let mode = connection
                .query_row("PRAGMA journal_mode", [], |row| row.get::<_, String>(0))
                .map_err(driver_error);
            let step = match after_reading_journal_mode(mode, false) {
                JournalStep::Switch => after_switching_journal_mode(
                    connection
                        .pragma_update(None, "journal_mode", "WAL")
                        .map_err(driver_error),
                    false,
                ),
                step => step,
            };
            if let JournalStep::Finished(result) = step {
                return result;
            }
        },
    }
}

fn initialize(
    connection: &Connection,
    commands: &Vec<SqliteCommand>,
    performance: &mut RunPerformanceCounters,
) -> Result<(), SqliteRuntimeError> {
    let mut run = initialize_new_database(commands);
    loop {
        let reply = match run.request() {
            InitializationRequest::SetPageSize => InitializationReply::Done(
                connection
                    .pragma_update(None, "page_size", NEW_DATABASE_PAGE_SIZE_BYTES)
                    .map_err(driver_error),
            ),
            InitializationRequest::Apply(setting) => {
                InitializationReply::Done(apply(connection, setting))
            }
            InitializationRequest::Control { statement, .. } => InitializationReply::Done(
                connection.execute_batch(statement).map_err(driver_error),
            ),
            InitializationRequest::Execute {
                statement,
                parameters,
            } => InitializationReply::Done(
                connection
                    .execute(statement, params_from_iter(all_bound(parameters)))
                    .map(|_| ())
                    .map_err(driver_error),
            ),
            InitializationRequest::Autocommit => {
                InitializationReply::Autocommit(connection.is_autocommit())
            }
            InitializationRequest::Nothing => break,
        };
        run = run.advance(reply, false, performance);
    }
    run.into_result()
}

#[test]
fn read_write_policy_enables_foreign_key_constraints() {
    let connection = memory();
    let mut made = 0;
    while let Some(setting) = next_setting(OpenMode::ReadWrite, made) {
        apply(&connection, setting).expect("读写策略应可应用");
        made += 1;
    }
    assert_eq!(made, 6);
    assert_eq!(
        rows_of(&connection, "PRAGMA foreign_keys"),
        [integer_row(&[1])]
    );
}

#[test]
fn read_write_policy_applies_the_benchmarked_connection_memory_policy() {
    let connection = memory();
    let mut made = 0;
    while let Some(setting) = next_setting(OpenMode::ReadWrite, made) {
        apply(&connection, setting).expect("读写策略应可应用");
        made += 1;
    }
    assert_eq!(
        rows_of(&connection, "PRAGMA cache_size"),
        [integer_row(&[-3_145_728])]
    );
    assert_eq!(
        rows_of(&connection, "PRAGMA temp_store"),
        [integer_row(&[2])]
    );
}

#[test]
fn newly_created_database_uses_the_benchmarked_page_size() {
    let connection = memory();
    let commands = vec![SqliteCommand::new(
        text("CREATE TABLE page_probe (id INTEGER PRIMARY KEY)"),
        Vec::new(),
    )];
    initialize(&connection, &commands, &mut RunPerformanceCounters::new())
        .expect("数据库应可创建");
    assert_eq!(
        rows_of(&connection, "PRAGMA page_size"),
        [integer_row(&[65_536])]
    );
}

#[test]
fn read_only_policy_enables_foreign_key_constraints() {
    let connection = memory();
    let mut made = 0;
    while let Some(setting) = next_setting(OpenMode::ReadOnly, made) {
        apply(&connection, setting).expect("只读策略应可应用");
        made += 1;
    }
    assert_eq!(
        rows_of(&connection, "PRAGMA foreign_keys"),
        [integer_row(&[1])]
    );
    assert_eq!(
        rows_of(&connection, "PRAGMA query_only"),
        [integer_row(&[1])]
    );
}

#[test]
fn initialization_failures_are_rolled_back_and_refused_commands_touch_nothing() {
    let connection = memory();
    let commands = vec![
        SqliteCommand::new(text("CREATE TABLE kept (id INTEGER)"), Vec::new()),
        SqliteCommand::new(text("CREATE TABLE kept (id INTEGER)"), Vec::new()),
    ];
    let mut performance = RunPerformanceCounters::new();
    assert!(matches!(
        initialize(&connection, &commands, &mut performance),
        Err(SqliteRuntimeError::Driver {
            operation: "初始化新数据库",
            ..
        })
    ));
    assert!(connection.is_autocommit());
    assert_eq!(
        rows_of(&connection, "SELECT COUNT(*) FROM sqlite_schema"),
        [integer_row(&[0])]
    );
    assert_eq!(
        performance
            .snapshot()
            .sqlite_transactions
            .database_initialization
            .rollback
            .succeeded,
        1
    );
    assert!(matches!(
        run_create_database(&vec![SqliteCommand::new(text(" \t"), Vec::new())]),
        Err(CreateDatabaseError::NotCreated(_))
    ));
    assert_eq!(run_create_database(&commands), Ok(()));

    let ending = vec![SqliteCommand::new(text("COMMIT"), Vec::new())];
    assert!(matches!(
        initialize(&connection, &ending, &mut RunPerformanceCounters::new()),
        Err(SqliteRuntimeError::Internal("初始化命令意外结束了根事务"))
    ));
}

#[test]
fn failed_write_plan_counts_the_real_successful_rollback() {
    let connection = values_table();
    let mut performance = RunPerformanceCounters::new();
    let result = execute(
        &connection,
        &SqliteTransactionPlan::new(vec![
            command("INSERT INTO values_table (id) VALUES (1)"),
            SqliteTransactionStep::RequireNoRows(query(
                "SELECT 1 FROM values_table WHERE id = 1",
            )),
        ]),
        &mut performance,
        &mut 0,
    );
    assert!(matches!(
        result,
        Err(ExecuteTransactionError::RequirementFailed)
    ));
    let write = performance.snapshot().sqlite_transactions.write_plan;
    assert_eq!(write.begin.attempted, 1);
    assert_eq!(write.begin.succeeded, 1);
    assert_eq!(write.commit.attempted, 0);
    assert_eq!(write.rollback.attempted, 1);
    assert_eq!(write.rollback.succeeded, 1);
}

#[test]
fn batch_requirements_and_exact_updates_follow_natural_parameter_order() {
    let connection = values_table();
    transact(
        &connection,
        vec![
            command("INSERT INTO values_table (id, n) VALUES (1, 0)"),
            SqliteTransactionStep::RequireNoRowsMany(SqliteBatch::new(
                text("SELECT 1 FROM values_table WHERE id = ?1 AND n <> ?2"),
                integers(&[&[1, 0], &[2, 0]]),
            )),
            SqliteTransactionStep::ExecuteManyExactlyOne(SqliteBatch::new(
                text("UPDATE values_table SET n = ?1 WHERE id = 1 AND n = ?2"),
                integers(&[&[1, 0], &[2, 1], &[3, 2]]),
            )),
        ],
    )
    .expect("批量步骤应按自然参数顺序提交");
    assert_eq!(
        rows_of(&connection, "SELECT n FROM values_table WHERE id = 1"),
        [integer_row(&[3])]
    );
}

#[test]
fn shared_parameters_come_before_those_of_each_row() {
    let connection = values_table();
    transact(
        &connection,
        vec![SqliteTransactionStep::ExecuteMany(
            SqliteBatch::new(
                text("INSERT INTO values_table (n, id) VALUES (?1, ?2)"),
                integers(&[&[1], &[2]]),
            )
            .with_shared_parameters(vec![SqliteValue::Integer(9)]),
        )],
    )
    .expect("公共参数批次应可提交");
    assert_eq!(
        rows_of(&connection, "SELECT id, n FROM values_table ORDER BY id"),
        [integer_row(&[1, 9]), integer_row(&[2, 9])]
    );
    let wrong = transact(
        &connection,
        vec![SqliteTransactionStep::ExecuteMany(
            SqliteBatch::new(
                text("INSERT INTO values_table (n, id) VALUES (?1, ?2)"),
                integers(&[&[3, 4]]),
            )
            .with_shared_parameters(vec![SqliteValue::Integer(9)]),
        )],
    );
    assert!(matches!(
        wrong,
        Err(ExecuteTransactionError::NotCommitted(SqliteRuntimeError::Driver {
            operation: "绑定批量命令参数",
            source,
        })) if source.cause == SqliteDriverCause::InvalidParameterCount { actual: 3, expected: 2 }
    ));
    let too_many = transact(
        &connection,
        vec![SqliteTransactionStep::RequireNoRowsMany(
            SqliteBatch::new(text("SELECT ?1"), Vec::new()).with_shared_parameters(vec![
                SqliteValue::Integer(1),
                SqliteValue::Integer(2),
            ]),
        )],
    );
    assert!(matches!(
        too_many,
        Err(ExecuteTransactionError::NotCommitted(
            SqliteRuntimeError::Driver {
                operation: "绑定批量事务条件公共参数",
                ..
            }
        ))
    ));
}

#[test]
fn require_no_rows_many_reports_the_earliest_result_and_rolls_back() {
    let connection = values_table();
    transact(
        &connection,
        vec![command("INSERT INTO values_table (id, n) VALUES (1, 0)")],
    )
    .expect("基础行应可提交");

    let result = transact(
        &connection,
        vec![
            command("UPDATE values_table SET n = 9 WHERE id = 1"),
            SqliteTransactionStep::RequireNoRowsMany(SqliteBatch::new(
                text("SELECT CASE ?1 WHEN 1 THEN 1 ELSE abs(-9223372036854775808) END"),
                integers(&[&[1], &[2]]),
            )),
        ],
    );
    assert!(matches!(
        result,
        Err(ExecuteTransactionError::RequirementFailed)
    ));
    assert_eq!(
        rows_of(&connection, "SELECT n FROM values_table WHERE id = 1"),
        [integer_row(&[0])]
    );

    let result = transact(
        &connection,
        vec![SqliteTransactionStep::RequireNoRowsMany(SqliteBatch::new(
            text("SELECT CASE ?1 WHEN 1 THEN 1 ELSE abs(-9223372036854775808) END"),
            integers(&[&[2], &[1]]),
        ))],
    );
    assert!(matches!(
        result,
        Err(ExecuteTransactionError::NotCommitted(
            SqliteRuntimeError::Driver { .. }
        ))
    ));
}

#[test]
fn execute_many_exactly_one_rejects_zero_or_multiple_rows_and_rolls_back() {
    let connection = values_table();
    transact(
        &connection,
        vec![SqliteTransactionStep::ExecuteMany(SqliteBatch::new(
            text("INSERT INTO values_table (id, n) VALUES (?1, 0)"),
            integers(&[&[1], &[2]]),
        ))],
    )
    .expect("基础行应可提交");

    let zero_rows = transact(
        &connection,
        vec![
            SqliteTransactionStep::ExecuteManyExactlyOne(SqliteBatch::new(
                text("UPDATE values_table SET n = ?1 WHERE id = ?2"),
                integers(&[&[7, 1], &[8, 99]]),
            )),
            command("UPDATE values_table SET n = 10 WHERE id = 2"),
        ],
    );
    assert!(matches!(
        zero_rows,
        Err(ExecuteTransactionError::RequirementFailed)
    ));

    let multiple_rows = transact(
        &connection,
        vec![
            SqliteTransactionStep::ExecuteManyExactlyOne(SqliteBatch::new(
                text("UPDATE values_table SET n = ?1 WHERE n = ?2"),
                integers(&[&[3, 0]]),
            )),
            command("UPDATE values_table SET n = 10 WHERE id = 2"),
        ],
    );
    assert!(matches!(
        multiple_rows,
        Err(ExecuteTransactionError::RequirementFailed)
    ));
    assert_eq!(
        rows_of(&connection, "SELECT id, n FROM values_table ORDER BY id"),
        [integer_row(&[1, 0]), integer_row(&[2, 0])]
    );
}

#[test]
fn execute_many_exactly_one_driver_error_rolls_back_earlier_parameter_sets() {
    let connection = values_table();
    transact(
        &connection,
        vec![SqliteTransactionStep::ExecuteMany(SqliteBatch::new(
            text("INSERT INTO values_table (id) VALUES (?1)"),
            integers(&[&[1], &[2]]),
        ))],
    )
    .expect("基础行应可提交");

    let result = transact(
        &connection,
        vec![
            SqliteTransactionStep::ExecuteManyExactlyOne(SqliteBatch::new(
                text("UPDATE values_table SET id = ?1 WHERE id = ?2"),
                integers(&[&[3, 1], &[2, 3]]),
            )),
            command("INSERT INTO values_table (id) VALUES (4)"),
        ],
    );
    assert!(matches!(
        result,
        Err(ExecuteTransactionError::NotCommitted(
            SqliteRuntimeError::Driver { .. }
        ))
    ));
    assert_eq!(
        rows_of(&connection, "SELECT id FROM values_table ORDER BY id"),
        [integer_row(&[1]), integer_row(&[2])]
    );
}

#[test]
fn requirement_rollback_failure_is_outcome_unknown() {
    let connection = memory();
    let mut performance = RunPerformanceCounters::new();
    let outcome = execute_transaction_control(
        &mut performance,
        SqliteTransactionScope::WritePlan,
        SqliteTransactionControl::Rollback,
        connection.execute_batch("ROLLBACK").map_err(driver_error),
    );
    let reply = match outcome {
        Ok(()) => RollbackReply::Succeeded {
            autocommit: connection.is_autocommit(),
        },
        Err(error) => RollbackReply::Failed(error),
    };

    let result = rollback_requirement_failure(reply, false);

    assert!(matches!(
        result,
        ExecuteTransactionError::OutcomeUnknown(SqliteRuntimeError::Driver { .. })
    ));
    let rollback = performance
        .snapshot()
        .sqlite_transactions
        .write_plan
        .rollback;
    assert_eq!(rollback.attempted, 1);
    assert_eq!(rollback.succeeded, 0);
}

#[test]
fn rollbacks_say_what_is_certain() {
    let primary = || SqliteRuntimeError::Internal("primary");
    assert_eq!(
        rollback_after_failure(
            primary(),
            RollbackReply::Succeeded { autocommit: true },
            false
        ),
        Ok(primary())
    );
    assert!(matches!(
        rollback_after_failure(
            primary(),
            RollbackReply::Succeeded { autocommit: false },
            false
        ),
        Err(SqliteRuntimeError::Cleanup { failures, .. })
            if failures == [SqliteRuntimeError::Internal("回滚返回成功后连接仍处于事务中")]
    ));
    assert!(matches!(
        rollback_after_failure(primary(), RollbackReply::Failed(failure(5)), true),
        Err(SqliteRuntimeError::Cleanup { failures, .. })
            if failures == [SqliteRuntimeError::Cancelled { operation: "回滚事务" }]
    ));
    assert_eq!(
        rollback_requirement_failure(RollbackReply::Succeeded { autocommit: false }, false),
        ExecuteTransactionError::OutcomeUnknown(SqliteRuntimeError::Internal(
            "事务条件失败回滚后仍非 autocommit"
        ))
    );
}

#[test]
fn steps_that_end_the_transaction_leave_the_outcome_unknown() {
    let connection = values_table();
    let result = transact(
        &connection,
        vec![
            command("INSERT INTO values_table (id) VALUES (1)"),
            command("COMMIT"),
        ],
    );
    assert_eq!(
        result,
        Err(ExecuteTransactionError::OutcomeUnknown(
            SqliteRuntimeError::Internal("事务步骤意外结束了根事务")
        ))
    );
    connection.execute_batch("BEGIN").expect("事务应可开始");
    assert!(matches!(
        transact(&connection, vec![command("SELECT 1")]),
        Err(ExecuteTransactionError::NotCommitted(
            SqliteRuntimeError::Driver {
                operation: "开始写事务",
                ..
            }
        ))
    ));
    connection.execute_batch("ROLLBACK").expect("事务应可结束");
    assert_eq!(transact(&connection, Vec::new()), Ok(()));
}

#[test]
fn requirement_failure_stops_later_steps_and_rolls_back() {
    let connection = values_table();
    let result = transact(
        &connection,
        vec![
            command("INSERT INTO values_table (id) VALUES (1)"),
            SqliteTransactionStep::RequireNoRows(query(
                "SELECT 1 FROM values_table WHERE id = 1",
            )),
            command("INSERT INTO values_table (id) VALUES (2)"),
        ],
    );
    assert!(matches!(
        result,
        Err(ExecuteTransactionError::RequirementFailed)
    ));
    assert!(rows_of(&connection, "SELECT id FROM values_table").is_empty());
}

#[test]
fn typed_requirement_failure_returns_the_owned_first_row_after_rollback() {
    let connection = values_table();
    let result = transact(
        &connection,
        vec![
            command("INSERT INTO values_table (id, t) VALUES (7, 'diagnostic')"),
            SqliteTransactionStep::RequireNoRowsReturningFirstRow(
                query("SELECT id, t FROM values_table WHERE id = 7")
                    .with_id(text("test.typed_requirement")),
            ),
            command("INSERT INTO values_table (id) VALUES (8)"),
        ],
    );
    let Err(ExecuteTransactionError::RequirementFailedWithRow { query_id, row }) = result else {
        panic!("typed guard 必须返回确认回滚后的拥有型诊断行")
    };
    assert_eq!(query_id, "test.typed_requirement");
    assert_eq!(
        row,
        SqliteRow::new(vec![
            SqliteValue::Integer(7),
            SqliteValue::Text(text("diagnostic")),
        ])
    );
    assert!(
        rows_of(&connection, "SELECT id FROM values_table").is_empty(),
        "命中诊断行的事务必须完整回滚"
    );
    assert_eq!(
        transact(
            &connection,
            vec![SqliteTransactionStep::RequireNoRowsReturningFirstRow(query(
                "SELECT id FROM values_table"
            ))],
        ),
        Ok(())
    );
}

#[test]
fn texts_that_are_not_utf8_are_refused() {
    let connection = memory();
    assert!(matches!(
        read_query_rows_unchecked(read(&connection, "SELECT CAST(x'ff' AS TEXT)", &[]), false),
        Err(SqliteRuntimeError::InvalidValue("TEXT 不是 UTF-8"))
    ));
    assert_eq!(
        rows_of(&connection, "SELECT CAST(x'e69687' AS TEXT)"),
        [SqliteRow::new(vec![SqliteValue::Text(text("文"))])]
    );
    assert_eq!(
        own_sqlite_row(
            vec![
                Ok(SqliteColumn::Text(vec![0xff])),
                Err(failure(1)),
            ],
            false,
        ),
        Err(SqliteRuntimeError::InvalidValue("TEXT 不是 UTF-8"))
    );
    assert!(matches!(
        own_sqlite_row(vec![Ok(SqliteColumn::Null), Err(failure(1))], false),
        Err(SqliteRuntimeError::Driver {
            operation: "读取查询列",
            ..
        })
    ));
}

#[test]
fn final_transaction_mapping_preserves_typed_requirement_facts() {
    let row = || SqliteRow::new(vec![SqliteValue::Integer(7)]);
    let confirmed =
        map_final_transaction_error(ExecuteTransactionError::RequirementFailedWithRow {
            query_id: text("test.guard"),
            row: row(),
        });
    assert!(matches!(
        confirmed,
        ExecuteFinalTransactionError::RequirementFailedWithRow {
            query_id,
            row: actual,
        } if query_id == "test.guard" && actual == row()
    ));

    let unknown = map_final_transaction_error(
        ExecuteTransactionError::RequirementFailedWithRowOutcomeUnknown {
            query_id: text("test.guard"),
            row: row(),
            source: Box::new(SqliteRuntimeError::Internal("rollback outcome unknown")),
        },
    );
    assert!(matches!(
        unknown,
        ExecuteFinalTransactionError::RequirementFailedWithRowOutcomeUnknown {
            query_id,
            row: actual,
            source,
        } if query_id == "test.guard"
            && actual == row()
            && matches!(
                *source,
                SqliteRuntimeError::Internal("rollback outcome unknown")
            )
    ));
}

#[test]
fn a_connection_that_does_not_close_changes_what_is_reported() {
    assert_eq!(run_final_transaction(Ok(()), Ok(()), false), Ok(()));
    assert!(matches!(
        run_final_transaction(Ok(()), Err(failure(1)), false),
        Err(ExecuteFinalTransactionError::CommittedButFinalizationFailed(
            SqliteRuntimeError::Driver {
                operation: "关闭最终事务连接",
                ..
            }
        ))
    ));
    assert!(matches!(
        run_final_transaction(
            Err(ExecuteTransactionError::RequirementFailed),
            Err(failure(1)),
            false
        ),
        Err(ExecuteFinalTransactionError::NotCommitted(
            SqliteRuntimeError::Cleanup { .. }
        ))
    ));
    assert!(matches!(
        run_final_transaction(
            Err(ExecuteTransactionError::OutcomeUnknown(
                SqliteRuntimeError::Closed
            )),
            Ok(()),
            false
        ),
        Err(ExecuteFinalTransactionError::OutcomeUnknown(
            SqliteRuntimeError::Closed
        ))
    ));
}

fn missing() -> ExistingFileErrorOrRuntime {
    ExistingFileErrorOrRuntime::Existing(ExistingFileError::NotFound)
}

#[test]
fn databases_that_cannot_be_opened_say_why() {
    let io = |kind| IoError {
        kind,
        raw_os_code: None,
        text: text("io"),
    };
    assert_eq!(preflight_existing_file(Ok(true)), Ok(()));
    assert_eq!(
        preflight_existing_file(Ok(false)),
        Err(ExistingFileError::InvalidTarget)
    );
    assert_eq!(
        preflight_existing_file(Err(io(SafeIoKind::NotFound))),
        Err(ExistingFileError::NotFound)
    );
    assert_eq!(
        preflight_existing_file(Err(io(SafeIoKind::PermissionDenied))),
        Err(ExistingFileError::Io(io(SafeIoKind::PermissionDenied)))
    );
    assert_eq!(
        open_failure(OpenMode::ReadOnly, true, failure(14), false),
        missing()
    );
    assert!(matches!(
        open_failure(OpenMode::ReadWrite, false, failure(14), false),
        ExistingFileErrorOrRuntime::Runtime(SqliteRuntimeError::Driver {
            operation: "以读写方式打开数据库",
            ..
        })
    ));
    assert_eq!(
        map_query_open_error("a.db", missing()),
        QueryExistingDatabaseError::NotFound
    );
    assert_eq!(
        map_query_open_error(
            "a.db",
            ExistingFileErrorOrRuntime::Existing(ExistingFileError::InvalidTarget)
        ),
        QueryExistingDatabaseError::QueryFailed(SqliteRuntimeError::InvalidTarget {
            path: text("a.db")
        })
    );
    assert_eq!(
        open_transaction_connection("a.db", missing()),
        ExecuteTransactionError::NotFound
    );
    assert_eq!(
        open_transaction_session("a.db", missing()),
        OpenSqliteTransactionSessionError::NotFound
    );
    assert_eq!(
        run_query_existing("a.db", Err(missing()), &query("")),
        Err(QueryExistingDatabaseError::NotFound)
    );
    assert!(matches!(
        run_query_existing("a.db", Ok(()), &query("")),
        Err(QueryExistingDatabaseError::QueryFailed(_))
    ));
    assert_eq!(run_query_existing("a.db", Ok(()), &query("SELECT 1")), Ok(()));
}

#[test]
fn the_write_ahead_log_waits_only_while_the_database_is_busy() {
    assert_eq!(
        after_reading_journal_mode(Ok(text("WAL")), false),
        JournalStep::Finished(Ok(()))
    );
    assert_eq!(
        after_reading_journal_mode(Ok(text("delete")), false),
        JournalStep::Switch
    );
    assert_eq!(
        after_reading_journal_mode(Err(failure(5)), false),
        JournalStep::WaitAndStartOver
    );
    assert_eq!(
        after_switching_journal_mode(Err(failure(5)), true),
        JournalStep::Finished(Err(failure(5)))
    );
    assert_eq!(
        after_switching_journal_mode(Err(failure(6)), false),
        JournalStep::Finished(Err(failure(6)))
    );
}

#[test]
fn values_and_statements_are_checked() {
    assert!(validate_sqlite_value(&SqliteValue::Real(f64::NAN.to_bits())).is_err());
    assert!(validate_sqlite_value(&SqliteValue::Real(f64::INFINITY.to_bits())).is_err());
    assert!(validate_sqlite_value(&SqliteValue::Real(f64::MAX.to_bits())).is_ok());
    assert!(validate_sqlite_value(&SqliteValue::Real((-0.0_f64).to_bits())).is_ok());
    assert!(validate_statement("\u{3000}\n").is_err());
    assert!(validate_statement("SELECT 1").is_ok());
}

#[test]
fn lock_conflicts_of_a_cancelled_wait_are_cancellations() {
    assert_eq!(
        SqliteRuntimeError::driver("操作", failure(261), true),
        SqliteRuntimeError::Cancelled { operation: "操作" }
    );
    assert!(matches!(
        SqliteRuntimeError::driver("操作", failure(261), false),
        SqliteRuntimeError::Driver { .. }
    ));
    assert!(matches!(
        SqliteRuntimeError::driver("操作", failure(19), true),
        SqliteRuntimeError::Driver { .. }
    ));
}

#[test]
fn sessions_stop_after_an_uncertain_outcome() {
    let plan = SqliteTransactionPlan::new(vec![command("SELECT 1")]);
    let mut control = InteractiveSessionControl::new();
    let state = TransactionSessionState::initial(true);
    assert!(matches!(
        state.process_transaction_session_command(true, &plan),
        SessionCommand::Run(_)
    ));
    assert!(matches!(
        state.process_transaction_session_command(false, &plan),
        SessionCommand::NotRun(ExecuteTransactionError::NotCommitted(_))
    ));
    assert_eq!(
        control.complete_command(&Err(ExecuteTransactionError::RequirementFailed), true),
        TransactionSessionState::Ready
    );
    assert_eq!(await_transaction(control.lifecycle()), Ok(()));
    let state = control.complete_command(&Ok(()), false);
    assert_eq!(state, TransactionSessionState::Indeterminate);
    assert!(matches!(
        state.process_transaction_session_command(true, &plan),
        SessionCommand::Refused(ExecuteTransactionError::OutcomeUnknown(_))
    ));
    assert_eq!(control.lifecycle(), SESSION_INDETERMINATE);
    assert!(matches!(
        await_transaction(SESSION_INDETERMINATE),
        Err(ExecuteTransactionError::OutcomeUnknown(_))
    ));
    assert!(matches!(
        await_transaction(SESSION_FINALIZING),
        Err(ExecuteTransactionError::NotCommitted(
            SqliteRuntimeError::Closed
        ))
    ));
    assert!(matches!(
        await_transaction(9),
        Err(ExecuteTransactionError::NotCommitted(
            SqliteRuntimeError::Internal("事务计划会话生命周期值无效")
        ))
    ));
    assert_eq!(await_transaction(SESSION_OPEN), Ok(()));
    assert!(matches!(
        lost_transaction(true),
        ExecuteTransactionError::OutcomeUnknown(_)
    ));
    assert!(matches!(
        lost_transaction(false),
        ExecuteTransactionError::NotCommitted(_)
    ));
    assert!(control.initiate());
    assert!(!control.initiate());
    assert_eq!(control.lifecycle(), SESSION_FINALIZING);
}

#[test]
fn ending_a_session_tells_rollback_and_close_apart() {
    let mut control = InteractiveSessionControl::new();
    let mut performance = RunPerformanceCounters::new();
    assert_eq!(
        finalize_interactive_connection(
            FinalRollback::Tried {
                outcome: Ok(()),
                autocommit: true
            },
            Ok(()),
            false,
            &mut control,
            &mut performance,
        ),
        Ok(SqliteInteractiveSessionFinalization {
            had_unclosed_transaction: true
        })
    );
    assert_eq!(control.lifecycle(), SESSION_CLOSED);
    assert_eq!(
        performance
            .snapshot()
            .sqlite_transactions
            .interactive
            .rollback
            .succeeded,
        1
    );
    let error = finalize_interactive_connection(
        FinalRollback::Tried {
            outcome: Err(failure(1)),
            autocommit: false,
        },
        Err(failure(5)),
        false,
        &mut control,
        &mut performance,
    )
    .expect_err("回滚与关闭都失败");
    assert!(matches!(
        error.primary,
        SqliteInteractiveSessionFinalizationFailure::CleanupFailed(SqliteRuntimeError::Driver {
            operation: "终结交互式事务",
            ..
        })
    ));
    assert!(matches!(
        error.connection_close,
        Some(SqliteRuntimeError::Driver {
            operation: "关闭交互式连接",
            ..
        })
    ));
    let error = finalize_interactive_connection(
        FinalRollback::NotNeeded,
        Err(failure(5)),
        false,
        &mut control,
        &mut performance,
    )
    .expect_err("关闭失败");
    assert!(error.connection_close.is_none());
    assert!(panicked_finalization_result().is_err());
}

#[test]
fn single_slot_rejects_a_second_open_and_allows_reopen() {
    let mut slot = InteractiveSessionSlot::new();
    assert_eq!(slot.begin_open(), Ok(()));
    assert_eq!(
        slot.begin_open(),
        Err(SqliteRuntimeError::InteractiveSessionAlreadyOpen)
    );
    assert!(slot.complete_open(1));
    assert_eq!(
        slot.begin_open(),
        Err(SqliteRuntimeError::InteractiveSessionAlreadyOpen)
    );
    slot.complete();
    assert!(slot.is_empty());
    assert_eq!(slot.begin_open(), Ok(()));
    slot.abort_open();
    assert!(slot.is_empty());
    assert_eq!(slot.begin_open(), Ok(()));
    assert_eq!(slot.recover_open_panic(), None);
    assert_eq!(slot.begin_open(), Ok(()));
    assert!(slot.complete_open(2));
    assert_eq!(slot.begin_shutdown(), Some(2));
    assert!(!slot.is_empty());
    slot.complete();
    assert_eq!(slot.begin_open(), Err(SqliteRuntimeError::Closed));
}

#[test]
fn shutdown_happens_once_and_stops_everything() {
    let mut life = StorageLife::new();
    assert_eq!(life.ensure_accepting(), Ok(()));
    assert_eq!(life.shutdown(), ShutdownStart::Begin);
    assert_eq!(life.ensure_accepting(), Err(SqliteRuntimeError::Closed));
    assert!(matches!(life.shutdown(), ShutdownStart::Refused(_)));
    assert_eq!(life.finish_shutdown(false), Ok(()));
    assert_eq!(life.shutdown(), ShutdownStart::AlreadyClosed);
    assert!(!life.abandon(true));
    let mut abandoned = StorageLife::new();
    assert!(abandoned.abandon(true));
    assert_eq!(
        abandoned.ensure_accepting(),
        Err(SqliteRuntimeError::Closed)
    );
    assert_eq!(
        StorageLife::new().finish_shutdown(true),
        Err(SqliteRuntimeError::WorkerPanicked("shutdown"))
    );
}

#[test]
fn short_operations_that_do_not_come_back_say_whether_anything_happened() {
    assert_eq!(
        ShortStop::NotAccepted.creation(),
        CreateDatabaseError::NotCreated(SqliteRuntimeError::Closed)
    );
    assert!(matches!(
        ShortStop::Lost.creation(),
        CreateDatabaseError::OutcomeUnknown(SqliteRuntimeError::WorkerPanicked("短操作"))
    ));
    assert!(matches!(
        ShortStop::Lost.transaction(),
        ExecuteTransactionError::OutcomeUnknown(_)
    ));
    assert!(matches!(
        ShortStop::NotSent.transaction(),
        ExecuteTransactionError::NotCommitted(SqliteRuntimeError::Closed)
    ));
    assert!(matches!(
        ShortStop::NotAdmitted.query(),
        QueryExistingDatabaseError::QueryFailed(SqliteRuntimeError::Cancelled {
            operation: "等待 SQLite 短操作执行许可"
        })
    ));
    assert!(matches!(
        ShortStop::Lost.snapshot(),
        att_runtime::sqlite_database::SnapshotDatabaseError::OutcomeUnknown(_)
    ));
    assert_eq!(acquire_short_admission(true), Ok(()));
    assert!(acquire_short_admission(false).is_err());
    assert!(matches!(
        lost_final_transaction(),
        ExecuteFinalTransactionError::OutcomeUnknown(SqliteRuntimeError::WorkerPanicked(
            "最终短事务"
        ))
    ));
    assert!(matches!(
        lost_session_opening(),
        OpenSqliteTransactionSessionError::OpenFailed(_)
    ));
    let io = || IoError {
        kind: SafeIoKind::OutOfMemory,
        raw_os_code: None,
        text: text("oom"),
    };
    assert!(matches!(
        SpecialWorker::FinalTransaction.failure(io()),
        SqliteRuntimeError::WorkerSpawn { worker, .. } if worker == "final-transaction"
    ));
    assert!(matches!(
        short_worker_failure(3, io()),
        SqliteRuntimeError::WorkerSpawn { worker, .. } if worker == "short-3"
    ));
    let mut executor = RusqliteFinalTransactionExecutor::new_with_performance(
        RusqliteStorageConfiguration::production(),
    );
    assert!(!executor.wait_cancellation().is_requested());
    executor.cancel_waits();
    assert!(executor.wait_cancellation().is_requested());
    assert_eq!(
        executor.config(),
        RusqliteStorageConfiguration::production()
    );
}

#[test]
fn finalization_error_preserves_the_primary_and_connection_close_failures() {
    let error = SqliteInteractiveSessionFinalizationError {
        primary: SqliteInteractiveSessionFinalizationFailure::OutcomeUnknown(
            SqliteRuntimeError::Internal("回滚结果未知"),
        ),
        connection_close: Some(SqliteRuntimeError::Internal("关闭失败")),
    };
    let SqliteInteractiveSessionFinalizationFailure::OutcomeUnknown(primary) = &error.primary
    else {
        panic!("主失败应保留在错误链")
    };
    assert!(primary.message().contains("回滚结果未知"));
    assert!(error
        .connection_close
        .expect("关闭失败应保留")
        .message()
        .contains("关闭失败"));
}

fn copied(source: &Connection, destination: &mut Connection) -> Result<(), SqliteRuntimeError> {
    let mut run = CopyRun::new();
    while run.request() != CopyRequest::StartBackup {
        let reply = match run.request() {
            CopyRequest::Apply(setting) => apply(destination, setting),
            _ => Ok(()),
        };
        run = run.advance(CopyReply::Done(reply), false);
    }
    {
        let backup = Backup::new(source, destination).expect("应可建立备份");
        run = run.advance(CopyReply::Done(Ok(())), false);
        loop {
            run = match run.request() {
                CopyRequest::AskCancellation => run.advance(CopyReply::Cancellation(false), false),
                CopyRequest::Step { pages } => {
                    let step = backup.step(pages).map_err(driver_error).map(|step| match step {
                        StepResult::Done => BackupStep::Done,
                        StepResult::More => BackupStep::More,
                        StepResult::Busy => BackupStep::Busy,
                        StepResult::Locked => BackupStep::Locked,
                        _ => BackupStep::Unknown,
                    });
                    run.advance(CopyReply::Stepped(step), false)
                }
                CopyRequest::Sleep => run.advance(CopyReply::Slept, false),
                _ => break,
            };
        }
    }
    while let CopyRequest::Apply(setting) = run.request() {
        run = run.advance(CopyReply::Done(apply(destination, setting)), false);
    }
    run.into_result()
}

#[test]
fn online_backup_copies_one_consistent_database() {
    let source = values_table();
    transact(
        &source,
        vec![SqliteTransactionStep::ExecuteMany(SqliteBatch::bulk_insert(
            text("INSERT INTO values_table (id)"),
            1,
            Vec::new(),
            (1..=5_000).map(|id| vec![SqliteValue::Integer(id)]).collect(),
        ))],
    )
    .expect("源数据应可写入");
    let mut destination = memory();
    assert_eq!(copied(&source, &mut destination), Ok(()));
    assert_eq!(
        rows_of(&destination, "SELECT COUNT(*), MAX(id) FROM values_table"),
        [integer_row(&[5_000, 5_000])]
    );
}

#[test]
fn copies_stop_where_they_fail() {
    let opened = CopyRun::new().advance(CopyReply::Done(Err(failure(14))), false);
    assert!(matches!(
        opened.into_result(),
        Err(SqliteRuntimeError::Driver {
            operation: "打开快照目标数据库",
            ..
        })
    ));
    let asking = || {
        let mut run = CopyRun::new();
        while run.request() != CopyRequest::AskCancellation {
            run = run.advance(CopyReply::Done(Ok(())), false);
        }
        run
    };
    assert_eq!(
        asking()
            .advance(CopyReply::Cancellation(true), true)
            .into_result(),
        Err(SqliteRuntimeError::Cancelled {
            operation: "执行 online backup"
        })
    );
    let busy = asking()
        .advance(CopyReply::Cancellation(false), false)
        .advance(CopyReply::Stepped(Ok(BackupStep::Busy)), false);
    assert_eq!(busy.request(), CopyRequest::Sleep);
    assert_eq!(
        busy.advance(CopyReply::Slept, false).request(),
        CopyRequest::AskCancellation
    );
}

#[test]
fn shutdown_reports_tell_broken_rules_from_failed_finalizations() {
    let closed = SqliteRuntimeError::Closed.shutdown_diagnostic_report();
    assert_eq!(closed.effect, StateEffect::AppliedFinalizationFailed);
    assert!(matches!(
        closed.primary,
        Diagnostic::Runtime(RuntimeIssue::ExecutorClosed { .. })
    ));

    let broken = SqliteRuntimeError::Internal("rule").shutdown_diagnostic_report();
    assert_eq!(broken.effect, StateEffect::OutcomeUnknown);
    assert_eq!(
        broken.primary,
        Diagnostic::Sqlite(SqliteIssue {
            context: SqliteDiagnosticContext::new(
                SqliteDiagnosticStage::Shutdown,
                SqliteOperation::Shutdown,
                SqliteTransactionState::OutcomeUnknown,
            ),
            problem: SqliteProblem::RootInternalInvariant,
        })
    );

    let both = SqliteRuntimeError::with_failure(
        SqliteRuntimeError::InvalidValue("value"),
        SqliteRuntimeError::Internal("rule"),
    )
    .shutdown_diagnostic_report();
    assert_eq!(both.related.len(), 1);
    assert_eq!(both.related[0].report, broken);
    assert_eq!(both.effect, StateEffect::OutcomeUnknown);
}

#[test]
fn query_reports_name_the_query() {
    let context = SqliteDiagnosticContext::new(
        SqliteDiagnosticStage::Project,
        SqliteOperation::Query,
        SqliteTransactionState::NotStarted,
    );
    let error = SqliteRuntimeError::driver(
        "query",
        driver_error(rusqlite::Error::InvalidColumnIndex(2)),
        false,
    );
    let named = error.diagnostic_report_for_query(
        "project.db",
        context,
        StateEffect::Unchanged,
        "load_units",
        Some(1),
    );
    assert!(matches!(
        &named.primary,
        Diagnostic::Sqlite(SqliteIssue {
            problem: SqliteProblem::Driver { query_id: Some(id), query_ordinal: Some(1), .. },
            ..
        }) if id.as_str() == "load_units"
    ));
    let unnamed =
        error.diagnostic_report_for_query("project.db", context, StateEffect::Unchanged, "", None);
    assert!(matches!(
        &unnamed.primary,
        Diagnostic::Sqlite(SqliteIssue {
            problem: SqliteProblem::Driver { query_id: None, query_ordinal: None, .. },
            ..
        })
    ));
}
