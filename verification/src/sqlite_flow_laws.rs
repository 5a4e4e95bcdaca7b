//! How work on a connection goes on, step by step: queries, copies, new databases and the
//! end of a transaction.

use vstd::prelude::*;
use crate::diagnostic::{IoError, SafeIoKind};
use crate::performance::{
    RunPerformanceSnapshot, SqliteTransactionControl, SqliteTransactionScope,
};
use crate::search;
use crate::sqlite_bulk;
use crate::sqlite_copy;
use crate::sqlite_copy::{
    BackupAction, BackupStep, CopyPart, CopyReply, CopyRequest, CopyState,
};
use crate::sqlite_creation;
use crate::sqlite_creation::{InitializationReply, InitializationRequest, InitializationState};
use crate::sqlite_deeds;
use crate::sqlite_error::{SqliteDriverCause, SqliteDriverError, SqliteRuntimeError};
use crate::sqlite_open;
use crate::sqlite_open::{
    ConnectionSetting, ExistingFileError, ExistingFileErrorOrRuntime, JournalStep, OpenMode,
};
use crate::sqlite_plan::{SqliteCommand, SqliteQuery, SqliteRow, SqliteTransactionStep};
use crate::sqlite_plan_laws;
use crate::sqlite_query;
use crate::sqlite_query::{QueryReply, RawRow, SnapshotReply, SnapshotRequest, SnapshotState};
use crate::sqlite_row;
use crate::sqlite_transaction;
use crate::sqlite_transaction::{
    ExecuteFinalTransactionError, ExecuteTransactionError, RollbackReply, TransactionReply,
    TransactionState,
};

verus! {

/// Whether an error tells of a driver's failure in an operation: as that failure, or as a
/// cancellation where a lock was no longer waited for.
pub open spec fn tells(
    error: SqliteRuntimeError,
    operation: &'static str,
    source: SqliteDriverError,
    cancelled: bool,
) -> bool {
    if cancelled && sqlite_deeds::says_locked(source) {
        error == (SqliteRuntimeError::Cancelled { operation })
    } else {
        error == (SqliteRuntimeError::Driver { operation, source })
    }
}

proof fn lemma_tells(operation: &'static str, source: SqliteDriverError, cancelled: bool)
    ensures
        tells(
            SqliteRuntimeError::of_driver(operation, source, cancelled),
            operation,
            source,
            cancelled,
        ),
{
    sqlite_deeds::driver_failures_are_told_as_they_are(operation, source, cancelled);
}

/// Whether every row could be read and the rows came to their end.
pub open spec fn was_read(reply: QueryReply) -> bool {
    reply matches QueryReply::Rows { rows, end } && end is Ok && forall|i: int|
        0 <= i < rows@.len() ==> sqlite_deeds::all_readable((#[trigger] rows@[i])@)
}

/// Whether the rows of a result hold what the driver gave, each value in its place.
pub open spec fn holds_all(rows: Seq<RawRow>, owned: Seq<SqliteRow>) -> bool {
    &&& owned.len() == rows.len()
    &&& forall|i: int, c: int|
        0 <= i < rows.len() && 0 <= c < (#[trigger] rows[i])@.len() ==> {
            &&& owned[i].columns().len() == rows[i]@.len()
            &&& (#[trigger] rows[i]@[c]) is Ok
            &&& sqlite_deeds::holds_the_same(rows[i]@[c]->Ok_0, owned[i].columns()[c])
        }
}

proof fn lemma_row_fault(row: RawRow, cancelled: bool)
    ensures
        sqlite_row::row_fault(row@, cancelled) is None <==> sqlite_deeds::all_readable(row@),
{
    let bad = sqlite_row::unreadable(row@, cancelled);
    search::lemma_first_meaning(bad, 0, row@.len() as int);
    assert forall|c: int| 0 <= c < row@.len() implies bad(c) == !((#[trigger] row@[c]) is Ok && (
    row@[c]->Ok_0 matches crate::sqlite_row::SqliteColumn::Text(bytes) ==> vstd::utf8::valid_utf8(
        bytes@,
    ))) by {}
    if let Some(c) = search::first_such(bad, 0, row@.len() as int) {
        assert(bad(c));
    }
}

/// A query succeeds exactly when all its rows can be read, and then gives all of them.
pub proof fn queries_give_all_their_rows(reply: QueryReply, cancelled: bool, owned: Seq<SqliteRow>)
    ensures
        sqlite_query::query_fault(reply, cancelled) is None <==> was_read(reply),
        sqlite_query::query_gave(reply, owned) ==> (reply matches QueryReply::Rows { rows, .. }
            && holds_all(rows@, owned)),
        reply matches QueryReply::PrepareFailed(source) ==> (sqlite_query::query_fault(
            reply,
            cancelled,
        ) matches Some(error) && tells(error, "准备查询", source, cancelled)),
        reply matches QueryReply::BindFailed(source) ==> (sqlite_query::query_fault(
            reply,
            cancelled,
        ) matches Some(error) && tells(error, "绑定查询参数", source, cancelled)),
        reply matches QueryReply::Rows { rows, end: Err(source) } ==> ((forall|i: int|
            0 <= i < rows@.len() ==> sqlite_deeds::all_readable((#[trigger] rows@[i])@)) ==> (
        sqlite_query::query_fault(reply, cancelled) matches Some(error) && tells(
            error,
            "读取查询行",
            source,
            cancelled,
        ))),
{
    match reply {
        QueryReply::PrepareFailed(source) => {
            lemma_tells("准备查询", source, cancelled);
        },
        QueryReply::BindFailed(source) => {
            lemma_tells("绑定查询参数", source, cancelled);
        },
        QueryReply::Rows { rows, end } => {
            let bad = sqlite_query::unreadable_rows(rows@, cancelled);
            search::lemma_first_meaning(bad, 0, rows@.len() as int);
            assert forall|i: int| 0 <= i < rows@.len() implies bad(i) == !sqlite_deeds::all_readable(
                (#[trigger] rows@[i])@,
            ) by {
                lemma_row_fault(rows@[i], cancelled);
            }
            if let Some(i) = search::first_such(bad, 0, rows@.len() as int) {
                assert(bad(i));
                assert(!sqlite_deeds::all_readable(rows@[i]@));
            }
            if let Err(source) = end {
                lemma_tells("读取查询行", source, cancelled);
            }
            if sqlite_query::query_gave(reply, owned) {
                assert forall|i: int, c: int|
                    0 <= i < rows@.len() && 0 <= c < (#[trigger] rows@[i])@.len() implies {
                    &&& owned[i].columns().len() == rows@[i]@.len()
                    &&& (#[trigger] rows@[i]@[c]) is Ok
                    &&& sqlite_deeds::holds_the_same(rows@[i]@[c]->Ok_0, owned[i].columns()[c])
                } by {
                    assert(sqlite_query::is_owned(rows@[i], owned[i]));
                    assert(sqlite_row::is_read_as(rows@[i]@[c], owned[i].columns()[c]));
                }
            }
        },
    }
}

/// The results that a state of a snapshot holds.
pub open spec fn results_of(state: SnapshotState) -> Seq<Vec<SqliteRow>> {
    match state {
        SnapshotState::Reading { results } => results@,
        SnapshotState::Committing { results } => results@,
        SnapshotState::CheckingCommit { results } => results@,
        SnapshotState::Finished { result: Ok(results) } => results@,
        _ => Seq::empty(),
    }
}

/// A snapshot reads its queries one by one: each result holds the rows of its own query, and
/// a query that fails is named. It is committed after the last one.
pub proof fn snapshots_read_query_by_query(
    results: Vec<Vec<SqliteRow>>,
    queries: Seq<SqliteQuery>,
    reply: QueryReply,
    cancelled: bool,
    next: SnapshotState,
)
    requires
        (SnapshotState::Reading { results }).leads_to(
            queries,
            SnapshotReply::Rows(reply),
            cancelled,
            next,
        ),
    ensures
        was_read(reply) ==> {
            &&& next is Reading <==> results@.len() + 1 < queries.len()
            &&& next is Committing <==> results@.len() + 1 >= queries.len()
            &&& results_of(next).len() == results@.len() + 1
            &&& forall|i: int| 0 <= i < results@.len() ==> #[trigger] results_of(next)[i] == results@[i]
            &&& holds_all(reply->rows@, results_of(next)[results@.len() as int]@)
        },
        !was_read(reply) ==> {
            &&& next matches SnapshotState::CheckingFailure {
                primary: SqliteRuntimeError::QueryContext { query_id, ordinal, source },
            }
            &&& query_id@ == queries[results@.len() as int].named()
            &&& ordinal == results@.len()
            &&& sqlite_query::query_fault(reply, cancelled) == Some(*source)
        },
{
    queries_give_all_their_rows(reply, cancelled, Seq::empty());
    if was_read(reply) {
        let extended = results_of(next);
        assert(next is Reading || next is Committing);
        queries_give_all_their_rows(reply, cancelled, extended.last()@);
        assert forall|i: int| 0 <= i < results@.len() implies #[trigger] extended[i] == results@[i] by {
            assert(extended.drop_last()[i] == extended[i]);
        }
    }
}

/// A snapshot that cannot begin fails; one that is committed ends with all results once the
/// connection confirms it; a failed one is rolled back where it is still open.
pub proof fn snapshots_end_as_told(
    state: SnapshotState,
    queries: Seq<SqliteQuery>,
    reply: SnapshotReply,
    cancelled: bool,
    next: SnapshotState,
)
    requires
        state.leads_to(queries, reply, cancelled, next),
        !(state is Reading),
    ensures
        match (state, reply) {
            (SnapshotState::Beginning, SnapshotReply::Done(Ok(_))) => next is Reading && results_of(
                next,
            ).len() == 0,
            (SnapshotState::Beginning, SnapshotReply::Done(Err(source))) => next
                matches SnapshotState::Finished { result: Err(error) } && tells(
                error,
                "开始只读查询快照",
                source,
                cancelled,
            ),
            (SnapshotState::Committing { results }, SnapshotReply::Done(Ok(_))) => next
                is CheckingCommit && results_of(next) == results@,
            (SnapshotState::Committing { .. }, SnapshotReply::Done(Err(source))) => next
                matches SnapshotState::CheckingFailure { primary } && tells(
                primary,
                "结束只读查询快照",
                source,
                cancelled,
            ),
            (SnapshotState::CheckingCommit { results }, SnapshotReply::Autocommit(true)) => next
                matches SnapshotState::Finished { result: Ok(read) } && read == results,
            (SnapshotState::CheckingCommit { .. }, SnapshotReply::Autocommit(false)) => next
                matches SnapshotState::CheckingFailure { primary } && primary is Internal,
            (SnapshotState::CheckingFailure { primary }, SnapshotReply::Autocommit(true)) => next
                matches SnapshotState::Finished { result: Err(error) } && error == primary,
            (SnapshotState::CheckingFailure { primary }, SnapshotReply::Autocommit(false)) => next
                matches SnapshotState::RollingBack { primary: kept } && kept == primary,
            (SnapshotState::RollingBack { primary }, SnapshotReply::Done(Ok(_))) => next
                matches SnapshotState::Finished { result: Err(error) } && error == primary,
            (SnapshotState::RollingBack { primary }, SnapshotReply::Done(Err(source))) => next
                matches SnapshotState::Finished {
                result: Err(SqliteRuntimeError::Cleanup { primary: kept, failures }),
            } && *kept == primary && failures@.len() == 1 && tells(
                failures@[0],
                "回滚只读查询快照",
                source,
                cancelled,
            ),
            _ => false,
        },
{
    if let SnapshotReply::Done(Err(source)) = reply {
        lemma_tells("开始只读查询快照", source, cancelled);
        lemma_tells("结束只读查询快照", source, cancelled);
        lemma_tells("回滚只读查询快照", source, cancelled);
    }
}

/// A snapshot asks for the query that comes after its results, with that query's own values,
/// and for nothing once it has ended.
pub proof fn snapshots_ask_for_the_next_query(
    state: SnapshotState,
    queries: Seq<SqliteQuery>,
    request: SnapshotRequest<'_>,
)
    requires
        sqlite_query::is_request(state, queries, request),
    ensures
        state is Reading ==> (request matches SnapshotRequest::Read { statement, parameters }
            && statement@ == queries[results_of(state).len() as int].sql() && parameters@
            == queries[results_of(state).len() as int].bound()),
        request is Read <==> state is Reading,
        request is Autocommit <==> state is CheckingCommit || state is CheckingFailure,
        request is Nothing <==> state is Finished,
        state is Beginning <==> request == (SnapshotRequest::Control {
            control: SqliteTransactionControl::Begin,
            statement: "BEGIN",
        }),
        state is Committing <==> request == (SnapshotRequest::Control {
            control: SqliteTransactionControl::Commit,
            statement: "COMMIT",
        }),
        state is RollingBack <==> request == (SnapshotRequest::Control {
            control: SqliteTransactionControl::Rollback,
            statement: "ROLLBACK",
        }),
{
}

/// Each control statement is counted as what it is, in the states that ask for it.
pub proof fn control_statements_are_counted(
    transaction: TransactionState,
    snapshot: SnapshotState,
    initialization: InitializationState,
)
    ensures
        transaction.control() == Some(SqliteTransactionControl::Begin) <==> transaction is Beginning,
        transaction.control() == Some(SqliteTransactionControl::Commit) <==> transaction
            is Committing,
        transaction.control() == Some(SqliteTransactionControl::Rollback) <==> transaction
            is RollingBack,
        snapshot.control() == Some(SqliteTransactionControl::Begin) <==> snapshot is Beginning,
        snapshot.control() == Some(SqliteTransactionControl::Commit) <==> snapshot is Committing,
        snapshot.control() == Some(SqliteTransactionControl::Rollback) <==> snapshot is RollingBack,
        initialization.control() == Some(SqliteTransactionControl::Begin) <==> initialization
            is Beginning,
        initialization.control() == Some(SqliteTransactionControl::Commit) <==> initialization
            is Committing,
        initialization.control() == Some(SqliteTransactionControl::Rollback) <==> initialization
            is RollingBack,
{
}

/// A control statement counts as one attempt, and as one success if it succeeded; no other
/// counter moves.
pub proof fn attempts_and_successes_are_counted(
    counts: RunPerformanceSnapshot,
    scope: SqliteTransactionScope,
    control: SqliteTransactionControl,
    succeeded: bool,
    other_scope: SqliteTransactionScope,
    other: SqliteTransactionControl,
)
    ensures
        ({
            let before = sqlite_plan_laws::tally(counts, scope, control);
            let after = sqlite_transaction::control_counted(counts, scope, control, succeeded);
            let grown = sqlite_plan_laws::tally(after, scope, control);
            &&& before.attempted < u64::MAX ==> grown.attempted == before.attempted + 1
            &&& before.attempted == u64::MAX ==> grown.attempted == u64::MAX
            &&& succeeded && before.succeeded < u64::MAX ==> grown.succeeded == before.succeeded + 1
            &&& succeeded && before.succeeded == u64::MAX ==> grown.succeeded == u64::MAX
            &&& !succeeded ==> grown.succeeded == before.succeeded
            &&& (other_scope, other) != (scope, control) ==> sqlite_plan_laws::tally(
                after,
                other_scope,
                other,
            ) == sqlite_plan_laws::tally(counts, other_scope, other)
            &&& after.candidate_validations == counts.candidate_validations
        }),
{
    sqlite_plan_laws::each_statement_has_its_own_counter(
        counts,
        scope,
        control,
        true,
        other_scope,
        other,
    );
    let tried = crate::performance::recorded(counts, scope, control, true);
    sqlite_plan_laws::each_statement_has_its_own_counter(
        tried,
        scope,
        control,
        false,
        other_scope,
        other,
    );
}

/// A connection is set up in one order: waiting, memory and keys first, then what sets a
/// reader or a writer apart, and synchronization last.
pub proof fn connections_are_set_up_in_order(mode: OpenMode)
    ensures
        ({
            let made = sqlite_open::settings(mode);
            &&& made.len() == 6
            &&& made[0] is BusyHandler
            &&& made[1] is CacheSize
            &&& made[2] is TempStoreInMemory
            &&& made[3] is ForeignKeys
            &&& mode is ReadOnly <==> made[4] is QueryOnly
            &&& mode is ReadWrite <==> made[4] is WriteAheadLog
            &&& made[5] is FullSynchronous
        }),
        ({
            let first = crate::sqlite_copy::memory_settings();
            &&& first.len() == 2
            &&& first[0] is CacheSize
            &&& first[1] is TempStoreInMemory
        }),
{
}

/// The failure of a setting says what was being set.
pub proof fn failed_settings_are_named(mode: OpenMode, setting: ConnectionSetting)
    ensures
        setting is BusyHandler ==> sqlite_open::setting_operation(mode, setting)
            == "设置 SQLite 繁忙等待处理器",
        mode is ReadWrite && !(setting is BusyHandler) ==> sqlite_open::setting_operation(mode, setting)
            == "应用 ATT SQLite 读写策略",
        mode is ReadOnly && (setting is CacheSize || setting is TempStoreInMemory)
            ==> sqlite_open::setting_operation(mode, setting) == "应用 ATT SQLite 连接内存策略",
        mode is ReadOnly && setting is ForeignKeys ==> sqlite_open::setting_operation(mode, setting)
            == "启用只读连接外键约束",
        mode is ReadOnly && setting is FullSynchronous ==> sqlite_open::setting_operation(mode, setting)
            == "设置只读 synchronous",
        mode is ReadOnly && setting is QueryOnly ==> sqlite_open::setting_operation(mode, setting)
            == "设置只读连接",
{
}

/// The journal mode is read in either case; a switch that finds the database busy is tried
/// again unless the wait was given up, and everything else ends it.
pub proof fn journals_are_switched_with_patience(
    mode: Seq<char>,
    result: Result<(), SqliteDriverError>,
    cancelled: bool,
)
    ensures
        sqlite_open::is_write_ahead_log(mode) <==> mode.len() == 3 && (mode[0] == 'w' || mode[0] == 'W')
            && (mode[1] == 'a' || mode[1] == 'A') && (mode[2] == 'l' || mode[2] == 'L'),
        match result {
            Ok(_) => sqlite_open::journal_attempt_ends(result, cancelled) == JournalStep::Finished(
                Ok(()),
            ),
            Err(source) => {
                let busy = source.cause matches SqliteDriverCause::SqliteFailure { extended_code }
                    && extended_code & 0xff == 5;
                if busy && !cancelled {
                    sqlite_open::journal_attempt_ends(result, cancelled) is WaitAndStartOver
                } else {
                    sqlite_open::journal_attempt_ends(result, cancelled) == JournalStep::Finished(
                        Err(source),
                    )
                }
            },
        },
{
}

/// A database that cannot be opened is told as missing, as no file, or as what failed.
pub proof fn unopened_databases_are_told_as_what_they_are(
    path: Seq<char>,
    error: ExistingFileErrorOrRuntime,
    told: Option<SqliteRuntimeError>,
)
    requires
        sqlite_open::open_problem(path, error, told),
    ensures
        match error {
            ExistingFileErrorOrRuntime::Existing(ExistingFileError::NotFound) => told is None,
            ExistingFileErrorOrRuntime::Existing(ExistingFileError::InvalidTarget) => told
                matches Some(SqliteRuntimeError::InvalidTarget { path: p }) && p@ == path,
            ExistingFileErrorOrRuntime::Existing(ExistingFileError::Io(source)) => told matches Some(
                SqliteRuntimeError::Io { operation, path: p, source: s },
            ) && operation == "检查数据库" && p@ == path && s == source,
            ExistingFileErrorOrRuntime::Runtime(source) => told == Some(source),
        },
{
}

/// A copy opens its target, sets waiting and memory, copies page by page, asking before each
/// step, and makes the other settings last. A busy source is waited for.
pub proof fn copies_go_step_by_step(state: CopyState, reply: CopyReply, cancelled: bool)
    requires
        state.fits(),
        state.expects(reply),
    ensures
        ({
            let next = state.after(reply, cancelled);
            match (state, reply) {
                (CopyState::Opening, CopyReply::Done(Ok(_))) => next is SettingBusyHandler,
                (CopyState::SettingBusyHandler, CopyReply::Done(Ok(_))) => next == (
                CopyState::SettingMemory { made: 0 }),
                (CopyState::SettingMemory { made }, CopyReply::Done(Ok(_))) => if made == 0 {
                    next == (CopyState::SettingMemory { made: 1 })
                } else {
                    next is StartingBackup
                },
                (CopyState::StartingBackup, CopyReply::Done(Ok(_))) => next is Asking,
                (CopyState::Setting { made }, CopyReply::Done(Ok(_))) => if made < 5 {
                    next matches CopyState::Setting { made: more } && more == made + 1
                } else {
                    next == (CopyState::Finished { result: Ok(()) })
                },
                (CopyState::Opening, CopyReply::Done(Err(source))) => next
                    matches CopyState::Finished { result: Err(error) } && tells(
                    error,
                    "打开快照目标数据库",
                    source,
                    cancelled,
                ),
                (CopyState::SettingBusyHandler, CopyReply::Done(Err(source))) => next
                    matches CopyState::Finished { result: Err(error) } && tells(
                    error,
                    "设置快照目标繁忙等待处理器",
                    source,
                    cancelled,
                ),
                (CopyState::SettingMemory { .. }, CopyReply::Done(Err(source))) => next
                    matches CopyState::Finished { result: Err(error) } && tells(
                    error,
                    "应用 ATT SQLite 连接内存策略",
                    source,
                    cancelled,
                ),
                (CopyState::StartingBackup, CopyReply::Done(Err(source))) => next
                    matches CopyState::Finished { result: Err(error) } && tells(
                    error,
                    "建立 online backup",
                    source,
                    cancelled,
                ),
                (CopyState::Setting { made }, CopyReply::Done(Err(source))) => next
                    matches CopyState::Finished { result: Err(error) } && tells(
                    error,
                    sqlite_open::setting_operation(
                        OpenMode::ReadWrite,
                        sqlite_open::settings(OpenMode::ReadWrite)[made as int],
                    ),
                    source,
                    cancelled,
                ),
                (CopyState::Asking, CopyReply::Cancellation(true)) => next
                    matches CopyState::Finished { result: Err(error) } && error is Cancelled,
                (CopyState::Asking, CopyReply::Cancellation(false)) => next is Stepping,
                (CopyState::Stepping, CopyReply::Stepped(Ok(step))) => {
                    &&& step is Done <==> next == (CopyState::Setting { made: 0 })
                    &&& step is More <==> next is Asking
                    &&& step is Busy || step is Locked <==> next is Sleeping
                    &&& step is Unknown <==> (next matches CopyState::Finished { result: Err(error) }
                        && error is BackupIncomplete)
                },
                (CopyState::Stepping, CopyReply::Stepped(Err(source))) => next
                    matches CopyState::Finished { result: Err(error) } && tells(
                    error,
                    "执行 online backup",
                    source,
                    cancelled,
                ),
                (CopyState::Sleeping, CopyReply::Slept) => next is Asking,
                _ => false,
            }
        }),
{
    match reply {
        CopyReply::Done(Err(source)) => {
            lemma_tells("打开快照目标数据库", source, cancelled);
            lemma_tells("设置快照目标繁忙等待处理器", source, cancelled);
            lemma_tells("应用 ATT SQLite 连接内存策略", source, cancelled);
            lemma_tells("建立 online backup", source, cancelled);
            if let CopyState::Setting { made } = state {
                lemma_tells(
                    sqlite_open::setting_operation(
                        OpenMode::ReadWrite,
                        sqlite_open::settings(OpenMode::ReadWrite)[made as int],
                    ),
                    source,
                    cancelled,
                );
            }
        },
        CopyReply::Stepped(Err(source)) => {
            lemma_tells("执行 online backup", source, cancelled);
        },
        _ => {},
    }
}

/// Whether the filling of a database has ended with an error that tells of a failure.
pub open spec fn filling_failed(
    next: InitializationState,
    operation: &'static str,
    source: SqliteDriverError,
    cancelled: bool,
) -> bool {
    next matches InitializationState::Finished { result: Err(error) } && tells(
        error,
        operation,
        source,
        cancelled,
    )
}

/// A new database is filled command by command: the page size and the settings come first,
/// each command must leave the transaction open, and the commit comes after the last one.
pub proof fn databases_are_filled_command_by_command(
    state: InitializationState,
    commands: Seq<SqliteCommand>,
    reply: InitializationReply,
    cancelled: bool,
    next: InitializationState,
)
    requires
        commands.len() <= usize::MAX,
        state.fits(commands),
        state.expects(reply),
        state.leads_to(commands, reply, cancelled, next),
    ensures
        match (state, reply) {
            (InitializationState::SettingPageSize, InitializationReply::Done(Ok(_))) => next == (
            InitializationState::Setting { made: 0 }),
            (InitializationState::SettingPageSize, InitializationReply::Done(Err(source))) =>
            filling_failed(next, "设置新数据库 page_size", source, cancelled),
            (InitializationState::Setting { made }, InitializationReply::Done(Ok(_))) => if made < 5 {
                next matches InitializationState::Setting { made: more } && more == made + 1
            } else {
                next is Beginning
            },
            (InitializationState::Setting { made }, InitializationReply::Done(Err(source))) =>
            filling_failed(
                next,
                sqlite_open::setting_operation(
                    OpenMode::ReadWrite,
                    sqlite_open::settings(OpenMode::ReadWrite)[made as int],
                ),
                source,
                cancelled,
            ),
            (InitializationState::Beginning, InitializationReply::Done(Ok(_))) => if commands.len()
                == 0 {
                next is Committing
            } else {
                next == (InitializationState::Executing { command: 0 })
            },
            (InitializationState::Beginning, InitializationReply::Done(Err(source))) => filling_failed(
                next,
                "开始新数据库事务",
                source,
                cancelled,
            ),
            (InitializationState::Executing { command }, InitializationReply::Done(Ok(_))) => next == (
            InitializationState::CheckingCommand { command }),
            (InitializationState::Executing { .. }, InitializationReply::Done(Err(source))) => next
                matches InitializationState::RollingBack { primary } && tells(
                primary,
                "初始化新数据库",
                source,
                cancelled,
            ),
            (
                InitializationState::CheckingCommand { command },
                InitializationReply::Autocommit(autocommit),
            ) => if autocommit {
                next matches InitializationState::Finished { result: Err(error) } && error is Internal
            } else if command + 1 < commands.len() {
                next matches InitializationState::Executing { command: more } && more == command + 1
            } else {
                next is Committing
            },
            (InitializationState::Committing, InitializationReply::Done(Ok(_))) => next == (
            InitializationState::CheckingCommit { failure: None }),
            (InitializationState::Committing, InitializationReply::Done(Err(source))) => next
                matches InitializationState::CheckingCommit { failure: Some(error) } && tells(
                error,
                "提交新数据库",
                source,
                cancelled,
            ),
            (
                InitializationState::CheckingCommit { failure },
                InitializationReply::Autocommit(autocommit),
            ) => match failure {
                None => if autocommit {
                    next == (InitializationState::Finished { result: Ok(()) })
                } else {
                    next matches InitializationState::Finished { result: Err(error) } && error
                        is Internal
                },
                Some(error) => if autocommit {
                    next matches InitializationState::Finished { result: Err(told) } && told == error
                } else {
                    next matches InitializationState::RollingBack { primary } && primary == error
                },
            },
            (InitializationState::RollingBack { primary }, InitializationReply::Done(Ok(_))) => next
                == (InitializationState::CheckingRollback { primary }),
            (InitializationState::RollingBack { primary }, InitializationReply::Done(Err(source))) =>
            next matches InitializationState::Finished {
                result: Err(SqliteRuntimeError::Cleanup { primary: kept, failures }),
            } && *kept == primary && failures@.len() == 1 && tells(
                failures@[0],
                "回滚事务",
                source,
                cancelled,
            ),
            (
                InitializationState::CheckingRollback { primary },
                InitializationReply::Autocommit(autocommit),
            ) => if autocommit {
                next matches InitializationState::Finished { result: Err(error) } && error == primary
            } else {
                next matches InitializationState::Finished {
                    result: Err(SqliteRuntimeError::Cleanup { primary: kept, failures }),
                } && *kept == primary && failures@.len() == 1 && failures@[0] is Internal
            },
            _ => false,
        },
{
    if let InitializationReply::Done(Err(source)) = reply {
        lemma_tells("设置新数据库 page_size", source, cancelled);
        lemma_tells("开始新数据库事务", source, cancelled);
        lemma_tells("初始化新数据库", source, cancelled);
        lemma_tells("提交新数据库", source, cancelled);
        lemma_tells("回滚事务", source, cancelled);
        if let InitializationState::Setting { made } = state {
            lemma_tells(
                sqlite_open::setting_operation(
                    OpenMode::ReadWrite,
                    sqlite_open::settings(OpenMode::ReadWrite)[made as int],
                ),
                source,
                cancelled,
            );
        }
    }
}

/// What a new database asks of its connection: each command with its own values, inside one
/// immediate transaction.
pub proof fn new_databases_ask_for_the_next_command(
    state: InitializationState,
    commands: Seq<SqliteCommand>,
    request: InitializationRequest<'_>,
)
    requires
        sqlite_creation::is_request(state, commands, request),
    ensures
        state matches InitializationState::Executing { command } ==> (request
            matches InitializationRequest::Execute { statement, parameters } && statement@
            == commands[command as int].sql() && parameters@ == commands[command as int].bound()),
        request is Execute <==> state is Executing,
        request is SetPageSize <==> state is SettingPageSize,
        state matches InitializationState::Setting { made } ==> request == InitializationRequest::Apply(
            sqlite_open::settings(OpenMode::ReadWrite)[made as int],
        ),
        request is Autocommit <==> state is CheckingCommand || state is CheckingCommit || state
            is CheckingRollback,
        request is Nothing <==> state is Finished,
        state is Beginning <==> request == (InitializationRequest::Control {
            control: SqliteTransactionControl::Begin,
            statement: "BEGIN IMMEDIATE",
        }),
        state is Committing <==> request == (InitializationRequest::Control {
            control: SqliteTransactionControl::Commit,
            statement: "COMMIT",
        }),
        state is RollingBack <==> request == (InitializationRequest::Control {
            control: SqliteTransactionControl::Rollback,
            statement: "ROLLBACK",
        }),
{
}

/// The commands of a new database are accepted exactly when each can be run; otherwise they
/// are refused for the first that cannot.
pub proof fn commands_are_refused_for_their_first_fault(commands: Seq<SqliteCommand>)
    ensures
        match sqlite_creation::commands_fault(commands) {
            None => forall|i: int|
                0 <= i < commands.len() ==> sqlite_plan_laws::can_be_seen(
                    (#[trigger] commands[i]).sql(),
                ) && sqlite_plan_laws::are_finite(commands[i].bound()),
            Some(error) => exists|i: int|
                {
                    &&& 0 <= i < commands.len()
                    &&& !(sqlite_plan_laws::can_be_seen((#[trigger] commands[i]).sql())
                        && sqlite_plan_laws::are_finite(commands[i].bound()))
                    &&& crate::sqlite_plan::statement_fault(commands[i].sql(), commands[i].bound())
                        == Some(error)
                    &&& forall|k: int|
                        0 <= k < i ==> sqlite_plan_laws::can_be_seen((#[trigger] commands[k]).sql())
                            && sqlite_plan_laws::are_finite(commands[k].bound())
                },
        },
{
    let faulty = sqlite_creation::faulty_commands(commands);
    search::lemma_first_meaning(faulty, 0, commands.len() as int);
    assert forall|i: int| 0 <= i < commands.len() implies faulty(i) == !(
    sqlite_plan_laws::can_be_seen((#[trigger] commands[i]).sql()) && sqlite_plan_laws::are_finite(
        commands[i].bound(),
    )) by {
        sqlite_plan_laws::statements_must_say_something(commands[i].sql(), commands[i].bound());
    }
    if let Some(i) = search::first_such(faulty, 0, commands.len() as int) {
        assert(faulty(i));
        sqlite_plan_laws::statements_must_say_something(commands[i].sql(), commands[i].bound());
    }
}

/// A last transaction is told as any other, under the same name and with the same source.
pub proof fn last_transactions_are_told_alike(error: ExecuteTransactionError)
    ensures
        ({
            let told = sqlite_transaction::as_final(error);
            &&& error is NotFound <==> told is NotFound
            &&& error is RequirementFailed <==> told is RequirementFailed
            &&& error is NotCommitted <==> told is NotCommitted
            &&& error is OutcomeUnknown <==> told is OutcomeUnknown
            &&& error matches ExecuteTransactionError::NotCommitted(source) ==> told
                == ExecuteFinalTransactionError::NotCommitted(source)
            &&& error matches ExecuteTransactionError::OutcomeUnknown(source) ==> told
                == ExecuteFinalTransactionError::OutcomeUnknown(source)
            &&& error matches ExecuteTransactionError::RequirementFailedWithRow { query_id, row }
                ==> told == (ExecuteFinalTransactionError::RequirementFailedWithRow { query_id, row })
            &&& error matches ExecuteTransactionError::RequirementFailedWithRowOutcomeUnknown {
                query_id,
                row,
                source,
            } ==> told == (ExecuteFinalTransactionError::RequirementFailedWithRowOutcomeUnknown {
                query_id,
                row,
                source,
            })
            &&& !(told is CommittedButFinalizationFailed)
            &&& !(told is RequirementFailedWithRowAndFinalizationFailed)
        }),
{
}

/// Whether an error is `primary` with a failed closing behind it.
pub open spec fn is_with_closing(
    error: SqliteRuntimeError,
    primary: SqliteRuntimeError,
    close: SqliteRuntimeError,
) -> bool {
    error matches SqliteRuntimeError::Cleanup { primary: kept, failures } && *kept == primary
        && failures@.len() == 1 && failures@[0] == close
}

/// A connection that cannot be closed makes no commit undone and none certain: what was
/// committed stays told as committed, what was rolled back as not committed, and what was
/// unknown as unknown. The failed closing is kept behind it.
pub proof fn unclosed_connections_keep_the_outcome(
    transaction: Result<(), ExecuteTransactionError>,
    close: SqliteRuntimeError,
    error: ExecuteFinalTransactionError,
)
    requires
        sqlite_transaction::is_unclosed(transaction, close, error),
    ensures
        transaction is Ok <==> error is CommittedButFinalizationFailed,
        transaction is Ok ==> error == ExecuteFinalTransactionError::CommittedButFinalizationFailed(
            close,
        ),
        match transaction {
            Ok(_) => true,
            Err(ExecuteTransactionError::NotCommitted(primary)) => error
                matches ExecuteFinalTransactionError::NotCommitted(source) && is_with_closing(
                source,
                primary,
                close,
            ),
            Err(ExecuteTransactionError::OutcomeUnknown(primary)) => error
                matches ExecuteFinalTransactionError::OutcomeUnknown(source) && is_with_closing(
                source,
                primary,
                close,
            ),
            Err(ExecuteTransactionError::RequirementFailed) => error
                matches ExecuteFinalTransactionError::NotCommitted(
                SqliteRuntimeError::Cleanup { failures, .. },
            ) && failures@.len() == 1 && failures@[0] == close,
            Err(ExecuteTransactionError::NotFound) => error
                matches ExecuteFinalTransactionError::OutcomeUnknown(
                SqliteRuntimeError::Cleanup { failures, .. },
            ) && failures@.len() == 1 && failures@[0] == close,
            Err(ExecuteTransactionError::RequirementFailedWithRow { query_id, row }) => error
                matches ExecuteFinalTransactionError::RequirementFailedWithRowAndFinalizationFailed {
                query_id: q,
                row: r,
                source,
            } && q == query_id && r == row && *source == close,
            Err(
                ExecuteTransactionError::RequirementFailedWithRowOutcomeUnknown {
                    query_id,
                    row,
                    source: primary,
                },
            ) => error
                matches ExecuteFinalTransactionError::RequirementFailedWithRowOutcomeUnknown {
                query_id: q,
                row: r,
                source,
            } && q == query_id && r == row && is_with_closing(*source, *primary, close),
        },
{
}

/// A failure in a step says what was being done, and for which kind of step.
pub proof fn failed_steps_are_named_by_their_kind(step: SqliteTransactionStep)
    ensures
        ({
            let prepare = sqlite_transaction::prepare_operation(step);
            let run = sqlite_transaction::run_operation(step);
            let bind_shared = sqlite_transaction::bind_shared_operation(step);
            let bind_row = sqlite_transaction::bind_row_operation(step);
            match step {
                SqliteTransactionStep::Execute(_) => prepare == "准备事务命令" && run
                    == "执行事务命令",
                SqliteTransactionStep::ExecuteMany(_) => prepare == "准备批量命令" && run
                    == "执行批量命令" && bind_shared == "绑定批量命令公共参数" && bind_row
                    == "绑定批量命令参数",
                SqliteTransactionStep::ExecuteManyExactlyOne(_) => prepare == "准备精确批量命令"
                    && run == "执行精确批量命令" && bind_shared == "绑定精确批量命令公共参数" && bind_row
                    == "绑定精确批量命令参数",
                SqliteTransactionStep::RequireNoRows(_) => prepare == "准备事务条件查询" && run
                    == "执行事务条件查询",
                SqliteTransactionStep::RequireNoRowsReturningFirstRow(_) => prepare
                    == "准备带诊断行的事务条件查询" && run == "执行带诊断行的事务条件查询",
                SqliteTransactionStep::RequireNoRowsMany(_) => prepare == "准备批量事务条件查询" && run
                    == "执行批量事务条件查询" && bind_shared == "绑定批量事务条件公共参数" && bind_row
                    == "绑定批量事务条件参数",
            }
        }),
{
}

/// A wrong number of parameters is told with both numbers, the one given first.
pub proof fn wrong_counts_are_told(error: SqliteDriverError, actual: usize, expected: usize)
    requires
        error.is_parameter_count(actual, expected),
    ensures
        error.cause matches SqliteDriverCause::InvalidParameterCount { actual: a, expected: e } && a
            == actual && e == expected,
        error.text@ == "Wrong number of parameters passed to query. Got "@ + crate::text::decimal(
            actual as nat,
        ) + ", needed "@ + crate::text::decimal(expected as nat),
{
}

/// A failed rollback leaves the outcome in doubt: it is told behind the failure that it
/// follows, while a confirmed one leaves that failure alone.
pub proof fn failed_rollbacks_are_told(
    primary: SqliteRuntimeError,
    reply: RollbackReply,
    cancelled: bool,
    result: Result<SqliteRuntimeError, SqliteRuntimeError>,
)
    requires
        sqlite_transaction::is_failure_after_rollback(primary, reply, cancelled, result),
    ensures
        result is Ok <==> reply == (RollbackReply::Succeeded { autocommit: true }),
        result matches Ok(error) ==> error == primary,
        result matches Err(error) ==> ({
            &&& error matches SqliteRuntimeError::Cleanup { primary: kept, failures }
            &&& *kept == primary
            &&& failures@.len() == 1
            &&& reply matches RollbackReply::Failed(source) ==> tells(
                failures@[0],
                "回滚事务",
                source,
                cancelled,
            )
            &&& reply is Succeeded ==> failures@[0] is Internal
        }),
        sqlite_transaction::requirement_doubt(reply, cancelled) is None <==> reply == (
        RollbackReply::Succeeded { autocommit: true }),
        reply matches RollbackReply::Failed(source) ==> (sqlite_transaction::requirement_doubt(
            reply,
            cancelled,
        ) matches Some(error) && tells(error, "回滚事务条件失败", source, cancelled)),
        reply == (RollbackReply::Succeeded { autocommit: false }) ==> (
        sqlite_transaction::requirement_doubt(reply, cancelled) matches Some(error) && error
            is Internal),
{
    if let RollbackReply::Failed(source) = reply {
        lemma_tells("回滚事务", source, cancelled);
        lemma_tells("回滚事务条件失败", source, cancelled);
    }
}

/// A backup goes on while there are pages left, waits where the database is in use, and ends
/// well exactly when it says that it is done.
pub proof fn backups_go_on_until_done(step: Result<BackupStep, SqliteDriverError>, cancelled: bool)
    ensures
        ({
            let action = sqlite_copy::backup_action(step, cancelled);
            &&& action is Step <==> (step matches Ok(BackupStep::More))
            &&& action is SleepAndStep <==> (step matches Ok(found) && (found is Busy
                || found is Locked))
            &&& action == BackupAction::Finished(Ok(())) <==> (step matches Ok(BackupStep::Done))
            &&& step matches Ok(BackupStep::Unknown) ==> (action matches BackupAction::Finished(
                Err(SqliteRuntimeError::BackupIncomplete(_)),
            ))
            &&& step matches Err(source) ==> (action matches BackupAction::Finished(Err(error))
                && tells(error, "执行 online backup", source, cancelled))
        }),
{
    if let Err(source) = step {
        lemma_tells("执行 online backup", source, cancelled);
    }
}

/// Only an existing file is opened; a missing one, something that is no file and a failure
/// to look are told apart. A file that vanished meanwhile counts as missing.
pub proof fn only_existing_files_are_opened(
    found: Result<bool, IoError>,
    mode: OpenMode,
    gone: bool,
    source: SqliteDriverError,
    cancelled: bool,
)
    ensures
        sqlite_open::preflight(found) is Ok <==> found == Ok::<bool, IoError>(true),
        sqlite_open::preflight(found) == Err::<(), ExistingFileError>(ExistingFileError::InvalidTarget)
            <==> found == Ok::<bool, IoError>(false),
        found matches Err(error) && error.kind == SafeIoKind::NotFound <==> sqlite_open::preflight(found)
            == Err::<(), ExistingFileError>(ExistingFileError::NotFound),
        found matches Err(error) ==> (error.kind != SafeIoKind::NotFound ==> sqlite_open::preflight(
            found,
        ) == Err::<(), ExistingFileError>(ExistingFileError::Io(error))),
        gone <==> sqlite_open::failure_to_open(mode, gone, source, cancelled)
            == ExistingFileErrorOrRuntime::Existing(ExistingFileError::NotFound),
        !gone ==> (sqlite_open::failure_to_open(mode, gone, source, cancelled)
            matches ExistingFileErrorOrRuntime::Runtime(error) && {
            &&& mode is ReadOnly ==> tells(error, "以只读方式打开数据库", source, cancelled)
            &&& mode is ReadWrite ==> tells(error, "以读写方式打开数据库", source, cancelled)
        }),
{
    lemma_tells("以只读方式打开数据库", source, cancelled);
    lemma_tells("以读写方式打开数据库", source, cancelled);
}

/// The number of variables is taken as the driver gives it, as long as there is at least one.
pub proof fn variables_are_as_many_as_allowed(limit: Result<i32, SqliteDriverError>, cancelled: bool)
    ensures
        ({
            let allowed = sqlite_bulk::variables_allowed(limit, cancelled);
            &&& allowed is Ok <==> (limit matches Ok(count) && count >= 1)
            &&& allowed matches Ok(variables) ==> (limit matches Ok(count) && variables == count)
            &&& limit matches Ok(count) ==> (count <= 0 ==> (allowed matches Err(
                SqliteRuntimeError::Internal(_),
            )))
            &&& limit matches Err(source) ==> (allowed matches Err(error) && tells(
                error,
                "读取 SQLite 变量上限",
                source,
                cancelled,
            ))
        }),
{
    if let Err(source) = limit {
        lemma_tells("读取 SQLite 变量上限", source, cancelled);
    }
}

/// A copy asks for one thing at a time, and a step is of as many pages as were set for it.
pub proof fn copies_ask_for_what_comes_next(state: CopyState)
    requires
        state matches CopyState::SettingMemory { made } ==> made < 2,
        state matches CopyState::Setting { made } ==> made < 6,
    ensures
        ({
            let request = sqlite_copy::request_at(state);
            &&& state is Opening <==> request is Open
            &&& state is SettingBusyHandler <==> request is SetBusyHandler
            &&& state is SettingMemory || state is Setting <==> request is Apply
            &&& state is StartingBackup <==> request is StartBackup
            &&& state is Asking <==> request is AskCancellation
            &&& state is Stepping <==> request == (CopyRequest::Step { pages: 256 })
            &&& state is Sleeping <==> request is Sleep
            &&& state is Finished <==> request is Nothing
            &&& state matches CopyState::SettingMemory { made } ==> ({
                &&& made == 0 ==> request->Apply_0 is CacheSize
                &&& made == 1 ==> request->Apply_0 is TempStoreInMemory
            })
            &&& state matches CopyState::Setting { made } ==> ({
                &&& made == 0 <==> request->Apply_0 is BusyHandler
                &&& made == 1 <==> request->Apply_0 is CacheSize
                &&& made == 2 <==> request->Apply_0 is TempStoreInMemory
                &&& made == 3 <==> request->Apply_0 is ForeignKeys
                &&& made == 4 <==> request->Apply_0 is WriteAheadLog
                &&& made == 5 <==> request->Apply_0 is FullSynchronous
            })
        }),
{
}

/// The failure of a part of a copy says which part it was.
pub proof fn failed_parts_of_copies_are_named(part: CopyPart, source: SqliteDriverError, cancelled: bool)
    ensures
        part is BusyHandler ==> tells(
            sqlite_copy::failure_of(part, source, cancelled),
            "设置快照目标繁忙等待处理器",
            source,
            cancelled,
        ),
        part is MemoryPolicy ==> tells(
            sqlite_copy::failure_of(part, source, cancelled),
            "应用 ATT SQLite 连接内存策略",
            source,
            cancelled,
        ),
        part is Backup ==> tells(
            sqlite_copy::failure_of(part, source, cancelled),
            "建立 online backup",
            source,
            cancelled,
        ),
{
    lemma_tells("设置快照目标繁忙等待处理器", source, cancelled);
    lemma_tells("应用 ATT SQLite 连接内存策略", source, cancelled);
    lemma_tells("建立 online backup", source, cancelled);
}

/// Whether the counters after a statement say that it was tried once more, and once more with
/// success if it succeeded, and nothing else.
pub open spec fn is_counted(
    before: RunPerformanceSnapshot,
    scope: SqliteTransactionScope,
    control: SqliteTransactionControl,
    succeeded: bool,
    after: RunPerformanceSnapshot,
    other_scope: SqliteTransactionScope,
    other: SqliteTransactionControl,
) -> bool {
    let was = sqlite_plan_laws::tally(before, scope, control);
    let is = sqlite_plan_laws::tally(after, scope, control);
    &&& was.attempted < u64::MAX ==> is.attempted == was.attempted + 1
    &&& was.succeeded < u64::MAX ==> is.succeeded == was.succeeded + if succeeded {
        1int
    } else {
        0
    }
    &&& (other_scope, other) != (scope, control) ==> sqlite_plan_laws::tally(after, other_scope, other)
        == sqlite_plan_laws::tally(before, other_scope, other)
    &&& after.candidate_validations == before.candidate_validations
}

/// Every BEGIN, COMMIT and ROLLBACK is counted under the kind of work that it belongs to: a
/// plan, the reading of a snapshot or the filling of a new database. No other answer is
/// counted.
pub proof fn statements_are_counted_where_they_belong(
    before: RunPerformanceSnapshot,
    transaction: TransactionState,
    answer: TransactionReply,
    snapshot: SnapshotState,
    read: SnapshotReply,
    initialization: InitializationState,
    filled: InitializationReply,
    other_scope: SqliteTransactionScope,
    other: SqliteTransactionControl,
)
    ensures
        ({
            let after = sqlite_transaction::counts_after(before, transaction, answer);
            match answer {
                TransactionReply::Done(result) => {
                    &&& transaction is Beginning ==> is_counted(
                        before,
                        SqliteTransactionScope::WritePlan,
                        SqliteTransactionControl::Begin,
                        result is Ok,
                        after,
                        other_scope,
                        other,
                    )
                    &&& transaction is Committing ==> is_counted(
                        before,
                        SqliteTransactionScope::WritePlan,
                        SqliteTransactionControl::Commit,
                        result is Ok,
                        after,
                        other_scope,
                        other,
                    )
                    &&& transaction is RollingBack ==> is_counted(
                        before,
                        SqliteTransactionScope::WritePlan,
                        SqliteTransactionControl::Rollback,
                        result is Ok,
                        after,
                        other_scope,
                        other,
                    )
                    &&& !(transaction is Beginning || transaction is Committing || transaction
                        is RollingBack) ==> after == before
                },
                _ => after == before,
            }
        }),
        ({
            let after = sqlite_query::counts_after(before, snapshot, read);
            match read {
                SnapshotReply::Done(result) => {
                    &&& snapshot is Beginning ==> is_counted(
                        before,
                        SqliteTransactionScope::ReadSnapshot,
                        SqliteTransactionControl::Begin,
                        result is Ok,
                        after,
                        other_scope,
                        other,
                    )
                    &&& snapshot is Committing ==> is_counted(
                        before,
                        SqliteTransactionScope::ReadSnapshot,
                        SqliteTransactionControl::Commit,
                        result is Ok,
                        after,
                        other_scope,
                        other,
                    )
                    &&& snapshot is RollingBack ==> is_counted(
                        before,
                        SqliteTransactionScope::ReadSnapshot,
                        SqliteTransactionControl::Rollback,
                        result is Ok,
                        after,
                        other_scope,
                        other,
                    )
                    &&& !(snapshot is Beginning || snapshot is Committing || snapshot is RollingBack)
                        ==> after == before
                },
                _ => after == before,
            }
        }),
        ({
            let after = sqlite_creation::counts_after(before, initialization, filled);
            match filled {
                InitializationReply::Done(result) => {
                    &&& initialization is Beginning ==> is_counted(
                        before,
                        SqliteTransactionScope::DatabaseInitialization,
                        SqliteTransactionControl::Begin,
                        result is Ok,
                        after,
                        other_scope,
                        other,
                    )
                    &&& initialization is Committing ==> is_counted(
                        before,
                        SqliteTransactionScope::DatabaseInitialization,
                        SqliteTransactionControl::Commit,
                        result is Ok,
                        after,
                        other_scope,
                        other,
                    )
                    &&& initialization is RollingBack ==> is_counted(
                        before,
                        SqliteTransactionScope::DatabaseInitialization,
                        SqliteTransactionControl::Rollback,
                        result is Ok,
                        after,
                        other_scope,
                        other,
                    )
                    &&& !(initialization is Beginning || initialization is Committing
                        || initialization is RollingBack) ==> after == before
                },
                _ => after == before,
            }
        }),
{
    if let (Some(control), TransactionReply::Done(result)) = (transaction.control(), answer) {
        attempts_and_successes_are_counted(
            before,
            SqliteTransactionScope::WritePlan,
            control,
            result is Ok,
            other_scope,
            other,
        );
    }
    if let (Some(control), SnapshotReply::Done(result)) = (snapshot.control(), read) {
        attempts_and_successes_are_counted(
            before,
            SqliteTransactionScope::ReadSnapshot,
            control,
            result is Ok,
            other_scope,
            other,
        );
    }
    if let (Some(control), InitializationReply::Done(result)) = (initialization.control(), filled) {
        attempts_and_successes_are_counted(
            before,
            SqliteTransactionScope::DatabaseInitialization,
            control,
            result is Ok,
            other_scope,
            other,
        );
    }
}

} // verus!
