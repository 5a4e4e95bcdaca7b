//! Reading queries, one by itself or several in one snapshot.

use vstd::pervasive::unreached;
use vstd::prelude::*;
use crate::performance::{
    RunPerformanceCounters, RunPerformanceSnapshot, SqliteTransactionControl, SqliteTransactionScope,
};
use crate::search;
use crate::sqlite_error::{SqliteDriverError, SqliteRuntimeError};
use crate::sqlite_open;
use crate::sqlite_open::{
    map_query_open_error, ExistingFileErrorOrRuntime, QueryExistingDatabaseError,
};
use crate::sqlite_plan;
use crate::sqlite_plan::{
    validate_query, validate_query_snapshot, SqliteQuery, SqliteRow, SqliteValue,
};
use crate::sqlite_row;
use crate::sqlite_row::{own_sqlite_row, SqliteColumn};
use crate::sqlite_transaction;
use crate::sqlite_transaction::execute_transaction_control;
use crate::vectors::in_reverse;

verus! {

/// A row as the driver gives it.
pub type RawRow = Vec<Result<SqliteColumn, SqliteDriverError>>;

/// How a query was read: its rows up to the end or to the failure to step on.
#[derive(Debug, PartialEq, Eq)]
pub enum QueryReply {
    PrepareFailed(SqliteDriverError),
    BindFailed(SqliteDriverError),
    Rows { rows: Vec<RawRow>, end: Result<(), SqliteDriverError> },
}

/// The rows that cannot be read.
pub open spec fn unreadable_rows(rows: Seq<RawRow>, cancelled: bool) -> spec_fn(int) -> bool {
    |i: int| sqlite_row::row_fault(rows[i]@, cancelled) is Some
}

/// Why the rows cannot be read: the first one that cannot, or else the failure at their end.
pub open spec fn rows_fault(rows: Seq<RawRow>, end: Result<(), SqliteDriverError>, cancelled: bool) -> Option<
    SqliteRuntimeError,
> {
    match search::first_such(unreadable_rows(rows, cancelled), 0, rows.len() as int) {
        Some(i) => sqlite_row::row_fault(rows[i]@, cancelled),
        None => match end {
            Ok(()) => None,
            Err(source) => Some(SqliteRuntimeError::of_driver("读取查询行", source, cancelled)),
        },
    }
}

/// Whether `owned` holds the same as the driver's row.
pub open spec fn is_owned(row: RawRow, owned: SqliteRow) -> bool {
    sqlite_row::row_holds(row@, owned.columns())
}

/// Whether `owned` holds the same rows in the same order.
pub open spec fn rows_hold(rows: Seq<RawRow>, owned: Seq<SqliteRow>) -> bool {
    &&& owned.len() == rows.len()
    &&& forall|i: int| 0 <= i < rows.len() ==> #[trigger] is_owned(rows[i], owned[i])
}

/// The rows of a query with values of their own.
pub fn read_prepared_query_rows(
    rows: Vec<RawRow>,
    end: Result<(), SqliteDriverError>,
    cancelled: bool,
) -> (result: Result<Vec<SqliteRow>, SqliteRuntimeError>)
    ensures
        match rows_fault(rows@, end, cancelled) {
            Some(error) => result == Err::<Vec<SqliteRow>, SqliteRuntimeError>(error),
            None => result matches Ok(owned) && rows_hold(rows@, owned@),
        },
{
    let ghost all = rows@;
    let ghost bad = unreadable_rows(all, cancelled);
    let mut waiting = in_reverse(rows);
    let mut owned: Vec<SqliteRow> = Vec::new();
    while waiting.len() > 0
        invariant
            all == rows@,
            waiting.len() + owned.len() == all.len(),
            bad == unreadable_rows(all, cancelled),
            forall|k: int|
                0 <= k < waiting.len() ==> (#[trigger] waiting@[k]) == all[all.len() - 1 - k],
            forall|k: int| 0 <= k < owned.len() ==> !#[trigger] bad(k),
            forall|k: int| 0 <= k < owned.len() ==> #[trigger] is_owned(all[k], owned@[k]),
        decreases waiting.len(),
    {
        let ghost at = owned.len() as int;
        if let Some(row) = waiting.pop() {
            assert(row == all[at]);
            match own_sqlite_row(row, cancelled) {
                Ok(row) => {
                    assert(!bad(at));
                    owned.push(row);
                },
                Err(error) => {
                    proof {
                        assert(bad(at));
                        search::lemma_first_found(bad, 0, all.len() as int, at);
                    }
                    return Err(error);
                },
            }
        }
    }
    proof {
        search::lemma_first_absent(bad, 0, all.len() as int);
    }
    match end {
        Ok(()) => Ok(owned),
        Err(source) => Err(SqliteRuntimeError::driver("读取查询行", source, cancelled)),
    }
}

/// Why a query fails.
pub open spec fn query_fault(reply: QueryReply, cancelled: bool) -> Option<SqliteRuntimeError> {
    match reply {
        QueryReply::PrepareFailed(source) => Some(
            SqliteRuntimeError::of_driver("准备查询", source, cancelled),
        ),
        QueryReply::BindFailed(source) => Some(
            SqliteRuntimeError::of_driver("绑定查询参数", source, cancelled),
        ),
        QueryReply::Rows { rows, end } => rows_fault(rows@, end, cancelled),
    }
}

/// Whether `owned` are the rows that a query gave.
pub open spec fn query_gave(reply: QueryReply, owned: Seq<SqliteRow>) -> bool {
    reply matches QueryReply::Rows { rows, .. } && rows_hold(rows@, owned)
}

/// What reading a query gives.
pub fn read_query_rows_unchecked(reply: QueryReply, cancelled: bool) -> (result: Result<
    Vec<SqliteRow>,
    SqliteRuntimeError,
>)
    ensures
        match query_fault(reply, cancelled) {
            Some(error) => result == Err::<Vec<SqliteRow>, SqliteRuntimeError>(error),
            None => result matches Ok(owned) && query_gave(reply, owned@),
        },
{
    match reply {
        QueryReply::PrepareFailed(source) => Err(
            SqliteRuntimeError::driver("准备查询", source, cancelled),
        ),
        QueryReply::BindFailed(source) => Err(
            SqliteRuntimeError::driver("绑定查询参数", source, cancelled),
        ),
        QueryReply::Rows { rows, end } => read_prepared_query_rows(rows, end, cancelled),
    }
}

/// Whether a query may be read: its database opened, and the query itself is acceptable.
pub fn run_query_existing(
    path: &str,
    opened: Result<(), ExistingFileErrorOrRuntime>,
    query: &SqliteQuery,
) -> (result: Result<(), QueryExistingDatabaseError>)
    ensures
        match opened {
            Err(error) => match result {
                Err(QueryExistingDatabaseError::NotFound) => sqlite_open::open_problem(
                    path@,
                    error,
                    None,
                ),
                Err(QueryExistingDatabaseError::QueryFailed(source)) => sqlite_open::open_problem(
                    path@,
                    error,
                    Some(source),
                ),
                Ok(()) => false,
            },
            Ok(()) => match sqlite_plan::statement_fault(query.sql(), query.bound()) {
                Some(error) => result == Err::<(), QueryExistingDatabaseError>(
                    QueryExistingDatabaseError::QueryFailed(error),
                ),
                None => result == Ok::<(), QueryExistingDatabaseError>(()),
            },
        },
{
    if let Err(error) = opened {
        return Err(map_query_open_error(path, error));
    }
    match validate_query(query) {
        Ok(()) => Ok(()),
        Err(error) => Err(QueryExistingDatabaseError::QueryFailed(error)),
    }
}

/// Where the reading of several queries in one snapshot stands.
#[derive(Debug, PartialEq, Eq)]
pub enum SnapshotState {
    Beginning,
    Reading { results: Vec<Vec<SqliteRow>> },
    Committing { results: Vec<Vec<SqliteRow>> },
    CheckingCommit { results: Vec<Vec<SqliteRow>> },
    /// A transaction that is still open must be rolled back.
    CheckingFailure { primary: SqliteRuntimeError },
    RollingBack { primary: SqliteRuntimeError },
    Finished { result: Result<Vec<Vec<SqliteRow>>, SqliteRuntimeError> },
}

#[derive(Debug, PartialEq, Eq)]
pub enum SnapshotRequest<'a> {
    Control { control: SqliteTransactionControl, statement: &'static str },
    Read { statement: &'a str, parameters: &'a Vec<SqliteValue> },
    Autocommit,
    Nothing,
}

#[derive(Debug, PartialEq, Eq)]
pub enum SnapshotReply {
    Done(Result<(), SqliteDriverError>),
    Rows(QueryReply),
    Autocommit(bool),
}

impl SnapshotState {
    pub open spec fn control(self) -> Option<SqliteTransactionControl> {
        match self {
            SnapshotState::Beginning => Some(SqliteTransactionControl::Begin),
            SnapshotState::Committing { .. } => Some(SqliteTransactionControl::Commit),
            SnapshotState::RollingBack { .. } => Some(SqliteTransactionControl::Rollback),
            _ => None,
        }
    }

    /// Whether the state is one of reading `queries`: as many results as queries were read.
    pub open spec fn fits(self, queries: Seq<SqliteQuery>) -> bool {
        match self {
            SnapshotState::Reading { results } => results@.len() < queries.len(),
            SnapshotState::Committing { results } => results@.len() == queries.len(),
            SnapshotState::CheckingCommit { results } => results@.len() == queries.len(),
            SnapshotState::Finished { result: Ok(results) } => results@.len() == queries.len(),
            _ => true,
        }
    }

    pub open spec fn expects(self, reply: SnapshotReply) -> bool {
        match self {
            SnapshotState::Reading { .. } => reply is Rows,
            SnapshotState::CheckingCommit { .. } => reply is Autocommit,
            SnapshotState::CheckingFailure { .. } => reply is Autocommit,
            SnapshotState::Finished { .. } => false,
            _ => reply is Done,
        }
    }

    /// Whether `next` comes after this state when the connection gave `reply`.
    pub open spec fn leads_to(
        self,
        queries: Seq<SqliteQuery>,
        reply: SnapshotReply,
        cancelled: bool,
        next: SnapshotState,
    ) -> bool {
        match (self, reply) {
            (SnapshotState::Beginning, SnapshotReply::Done(Ok(_))) => next matches SnapshotState::Reading {
                results,
            } && results@.len() == 0,
            (SnapshotState::Beginning, SnapshotReply::Done(Err(source))) => next == (
            SnapshotState::Finished {
                result: Err(SqliteRuntimeError::of_driver("开始只读查询快照", source, cancelled)),
            }),
            (SnapshotState::Reading { results }, SnapshotReply::Rows(rows)) => match query_fault(
                rows,
                cancelled,
            ) {
                Some(error) => {
                    &&& next matches SnapshotState::CheckingFailure {
                        primary: SqliteRuntimeError::QueryContext { query_id, ordinal, source },
                    }
                    &&& query_id@ == queries[results@.len() as int].named()
                    &&& ordinal == results@.len()
                    &&& *source == error
                },
                None => {
                    let extended = match next {
                        SnapshotState::Reading { results } => results@,
                        SnapshotState::Committing { results } => results@,
                        _ => Seq::empty(),
                    };
                    &&& extended.len() == results@.len() + 1
                    &&& extended.drop_last() == results@
                    &&& query_gave(rows, extended.last()@)
                    &&& if extended.len() < queries.len() {
                        next is Reading
                    } else {
                        next is Committing
                    }
                },
            },
            (SnapshotState::Committing { results }, SnapshotReply::Done(Ok(_))) => next == (
            SnapshotState::CheckingCommit { results }),
            (SnapshotState::Committing { .. }, SnapshotReply::Done(Err(source))) => next == (
            SnapshotState::CheckingFailure {
                primary: SqliteRuntimeError::of_driver("结束只读查询快照", source, cancelled),
            }),
            (SnapshotState::CheckingCommit { results }, SnapshotReply::Autocommit(autocommit)) => next
                == (if autocommit {
                SnapshotState::Finished { result: Ok(results) }
            } else {
                SnapshotState::CheckingFailure {
                    primary: SqliteRuntimeError::Internal("只读查询快照提交后仍非 autocommit"),
                }
            }),
            (SnapshotState::CheckingFailure { primary }, SnapshotReply::Autocommit(autocommit)) => next
                == (if autocommit {
                SnapshotState::Finished { result: Err(primary) }
            } else {
                SnapshotState::RollingBack { primary }
            }),
            (SnapshotState::RollingBack { primary }, SnapshotReply::Done(outcome)) => {
                &&& next matches SnapshotState::Finished { result: Err(error) }
                &&& is_rolled_back(primary, outcome, cancelled, error)
            },
            _ => false,
        }
    }
}

/// A failure of a snapshot after its rollback.
pub open spec fn is_rolled_back(
    primary: SqliteRuntimeError,
    rollback: Result<(), SqliteDriverError>,
    cancelled: bool,
    error: SqliteRuntimeError,
) -> bool {
    match rollback {
        Ok(_) => error == primary,
        Err(source) => error.is_followed_by(
            primary,
            SqliteRuntimeError::of_driver("回滚只读查询快照", source, cancelled),
        ),
    }
}

/// The failure that a snapshot reports after its rollback.
pub fn rollback_query_snapshot(
    primary: SqliteRuntimeError,
    rollback: Result<(), SqliteDriverError>,
    cancelled: bool,
) -> (error: SqliteRuntimeError)
    ensures
        is_rolled_back(primary, rollback, cancelled, error),
{
    match rollback {
        Ok(()) => primary,
        Err(source) => SqliteRuntimeError::with_failure(
            primary,
            SqliteRuntimeError::driver("回滚只读查询快照", source, cancelled),
        ),
    }
}

/// Several queries on their way through one snapshot.
#[derive(Debug, PartialEq, Eq)]
pub struct SnapshotRun<'a> {
    queries: &'a Vec<SqliteQuery>,
    state: SnapshotState,
}

/// Whether `request` is what a state asks the connection for.
pub open spec fn is_request(
    state: SnapshotState,
    queries: Seq<SqliteQuery>,
    request: SnapshotRequest<'_>,
) -> bool {
    match state {
        SnapshotState::Beginning => request == (SnapshotRequest::Control {
            control: SqliteTransactionControl::Begin,
            statement: "BEGIN",
        }),
        SnapshotState::Reading { results } => {
            &&& request matches SnapshotRequest::Read { statement, parameters }
            &&& statement@ == queries[results@.len() as int].sql()
            &&& parameters@ == queries[results@.len() as int].bound()
        },
        SnapshotState::Committing { .. } => request == (SnapshotRequest::Control {
            control: SqliteTransactionControl::Commit,
            statement: "COMMIT",
        }),
        SnapshotState::CheckingCommit { .. } => request == SnapshotRequest::Autocommit,
        SnapshotState::CheckingFailure { .. } => request == SnapshotRequest::Autocommit,
        SnapshotState::RollingBack { .. } => request == (SnapshotRequest::Control {
            control: SqliteTransactionControl::Rollback,
            statement: "ROLLBACK",
        }),
        SnapshotState::Finished { .. } => request == SnapshotRequest::Nothing,
    }
}

/// Checks the queries before anything is opened, and gets them ready to be read.
pub fn run_query_snapshot_existing<'a>(queries: &'a Vec<SqliteQuery>) -> (result: Result<
    SnapshotRun<'a>,
    QueryExistingDatabaseError,
>)
    ensures
        match sqlite_plan::snapshot_fault(queries@) {
            Some(error) => result == Err::<SnapshotRun<'a>, QueryExistingDatabaseError>(
                QueryExistingDatabaseError::QueryFailed(error),
            ),
            None => result matches Ok(run) && run.asked() == queries@ && run.at()
                == SnapshotState::Beginning,
        },
{
    match validate_query_snapshot(queries) {
        Err(error) => Err(QueryExistingDatabaseError::QueryFailed(error)),
        Ok(()) => Ok(SnapshotRun { queries, state: SnapshotState::Beginning }),
    }
}

/// The counters after a reply: only the answer to a control statement is counted.
pub open spec fn counts_after(
    before: RunPerformanceSnapshot,
    state: SnapshotState,
    reply: SnapshotReply,
) -> RunPerformanceSnapshot {
    match (state.control(), reply) {
        (Some(control), SnapshotReply::Done(result)) => sqlite_transaction::control_counted(
            before,
            SqliteTransactionScope::ReadSnapshot,
            control,
            result is Ok,
        ),
        _ => before,
    }
}

impl<'a> SnapshotRun<'a> {
    #[verifier::type_invariant]
    spec fn is_valid(&self) -> bool {
        self.state.fits(self.queries@) && self.queries@.len() > 0
    }

    pub closed spec fn asked(&self) -> Seq<SqliteQuery> {
        self.queries@
    }

    pub closed spec fn at(&self) -> SnapshotState {
        self.state
    }

    /// What to ask the connection for now.
    pub fn request(&self) -> (request: SnapshotRequest<'_>)
        ensures
            is_request(self.at(), self.asked(), request),
    {
        proof {
            use_type_invariant(self);
        }
        match &self.state {
            SnapshotState::Beginning => SnapshotRequest::Control {
                control: SqliteTransactionControl::Begin,
                statement: "BEGIN",
            },
            SnapshotState::Reading { results } => {
                let query = &self.queries[results.len()];
                SnapshotRequest::Read { statement: query.statement(), parameters: query.parameters() }
            },
            SnapshotState::Committing { .. } => SnapshotRequest::Control {
                control: SqliteTransactionControl::Commit,
                statement: "COMMIT",
            },
            SnapshotState::CheckingCommit { .. } => SnapshotRequest::Autocommit,
            SnapshotState::CheckingFailure { .. } => SnapshotRequest::Autocommit,
            SnapshotState::RollingBack { .. } => SnapshotRequest::Control {
                control: SqliteTransactionControl::Rollback,
                statement: "ROLLBACK",
            },
            SnapshotState::Finished { .. } => SnapshotRequest::Nothing,
        }
    }

    /// Goes on with the connection's answer, and counts the control statements.
    pub fn advance(
        self,
        reply: SnapshotReply,
        wait_cancelled: bool,
        performance: &mut RunPerformanceCounters,
    ) -> (next: Self)
        requires
            self.at().expects(reply),
        ensures
            next.asked() == self.asked(),
            next.at().fits(self.asked()),
            self.at().leads_to(self.asked(), reply, wait_cancelled, next.at()),
            final(performance)@ == counts_after(old(performance)@, self.at(), reply),
    {
        proof {
            use_type_invariant(&self);
        }
        let queries = self.queries;
        let state = match (self.state, reply) {
            (SnapshotState::Beginning, SnapshotReply::Done(outcome)) => {
                match execute_transaction_control(
                    performance,
                    SqliteTransactionScope::ReadSnapshot,
                    SqliteTransactionControl::Begin,
                    outcome,
                ) {
                    Ok(()) => SnapshotState::Reading { results: Vec::new() },
                    Err(source) => SnapshotState::Finished {
                        result: Err(
                            SqliteRuntimeError::driver("开始只读查询快照", source, wait_cancelled),
                        ),
                    },
                }
            },
            (SnapshotState::Reading { results }, SnapshotReply::Rows(rows)) => {
                let mut results = results;
                let ordinal: usize = results.len();
                match read_query_rows_unchecked(rows, wait_cancelled) {
                    Ok(rows) => {
                        let ghost before = results@;
                        results.push(rows);
                        assert(results@.drop_last() =~= before);
                        if results.len() < queries.len() {
                            SnapshotState::Reading { results }
                        } else {
                            SnapshotState::Committing { results }
                        }
                    },
                    Err(error) => SnapshotState::CheckingFailure {
                        primary: SqliteRuntimeError::query_context(
                            queries[ordinal].id(),
                            ordinal,
                            error,
                        ),
                    },
                }
            },
            (SnapshotState::Committing { results }, SnapshotReply::Done(outcome)) => {
                match execute_transaction_control(
                    performance,
                    SqliteTransactionScope::ReadSnapshot,
                    SqliteTransactionControl::Commit,
                    outcome,
                ) {
                    Ok(()) => SnapshotState::CheckingCommit { results },
                    Err(source) => SnapshotState::CheckingFailure {
                        primary: SqliteRuntimeError::driver(
                            "结束只读查询快照",
                            source,
                            wait_cancelled,
                        ),
                    },
                }
            },
            (SnapshotState::CheckingCommit { results }, SnapshotReply::Autocommit(autocommit)) => {
                if autocommit {
                    SnapshotState::Finished { result: Ok(results) }
                } else {
                    SnapshotState::CheckingFailure {
                        primary: SqliteRuntimeError::Internal("只读查询快照提交后仍非 autocommit"),
                    }
                }
            },
            (SnapshotState::CheckingFailure { primary }, SnapshotReply::Autocommit(autocommit)) => {
                if autocommit {
                    SnapshotState::Finished { result: Err(primary) }
                } else {
                    SnapshotState::RollingBack { primary }
                }
            },
            (SnapshotState::RollingBack { primary }, SnapshotReply::Done(outcome)) => {
                let outcome = execute_transaction_control(
                    performance,
                    SqliteTransactionScope::ReadSnapshot,
                    SqliteTransactionControl::Rollback,
                    outcome,
                );
                SnapshotState::Finished {
                    result: Err(rollback_query_snapshot(primary, outcome, wait_cancelled)),
                }
            },
            _ => unreached(),
        };
        SnapshotRun { queries, state }
    }

    /// The rows of each query, or what went wrong.
    pub fn into_result(self) -> (result: Result<Vec<Vec<SqliteRow>>, QueryExistingDatabaseError>)
        requires
            self.at() is Finished,
        ensures
            match self.at()->result {
                Ok(results) => result == Ok::<Vec<Vec<SqliteRow>>, QueryExistingDatabaseError>(results)
                    && results@.len() == self.asked().len(),
                Err(error) => result == Err::<Vec<Vec<SqliteRow>>, QueryExistingDatabaseError>(
                    QueryExistingDatabaseError::QueryFailed(error),
                ),
            },
    {
        proof {
            use_type_invariant(&self);
        }
        match self.state {
            SnapshotState::Finished { result } => match result {
                Ok(results) => Ok(results),
                Err(error) => Err(QueryExistingDatabaseError::QueryFailed(error)),
            },
            _ => unreached(),
        }
    }
}

/// A snapshot that has begun is not left open: its last answer is that no transaction is
/// open, or that of its ROLLBACK.
pub proof fn snapshots_are_not_left_open(
    state: SnapshotState,
    queries: Seq<SqliteQuery>,
    reply: SnapshotReply,
    cancelled: bool,
    next: SnapshotState,
)
    requires
        state.leads_to(queries, reply, cancelled, next),
        next is Finished,
    ensures
        match state {
            SnapshotState::Beginning => reply matches SnapshotReply::Done(Err(_)),
            SnapshotState::RollingBack { .. } => reply is Done,
            _ => reply == SnapshotReply::Autocommit(true),
        },
        next matches SnapshotState::Finished { result: Ok(_) } ==> state is CheckingCommit,
{
}

/// Every answer brings a snapshot nearer to its end.
pub proof fn snapshots_come_to_an_end(
    state: SnapshotState,
    queries: Seq<SqliteQuery>,
    reply: SnapshotReply,
    cancelled: bool,
    next: SnapshotState,
)
    requires
        state.fits(queries),
        state.leads_to(queries, reply, cancelled, next),
    ensures
        0 <= answers_left(next, queries) < answers_left(state, queries),
{
}

/// How many answers a snapshot can still get.
pub open spec fn answers_left(state: SnapshotState, queries: Seq<SqliteQuery>) -> int {
    match state {
        SnapshotState::Beginning => queries.len() as int + 5,
        SnapshotState::Reading { results } => queries.len() - results@.len() + 4,
        SnapshotState::Committing { .. } => 4,
        SnapshotState::CheckingCommit { .. } => 3,
        SnapshotState::CheckingFailure { .. } => 2,
        SnapshotState::RollingBack { .. } => 1,
        SnapshotState::Finished { .. } => 0,
    }
}

} // verus!
