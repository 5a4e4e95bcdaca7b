//! Running a transaction plan: what to ask the connection next, and what its answers mean.

use vstd::pervasive::unreached;
use vstd::prelude::*;
use vstd::string::*;
use crate::performance;
use crate::performance::{
    RunPerformanceCounters, RunPerformanceSnapshot, SqliteTransactionControl, SqliteTransactionScope,
};
use crate::search;
use crate::sqlite_bulk;
use crate::sqlite_bulk::{sqlite_variable_limit, BulkLayout};
use crate::sqlite_error::{SqliteDriverError, SqliteRuntimeError};
use crate::sqlite_open;
use crate::sqlite_open::{told_open_problem, ExistingFileErrorOrRuntime};
use crate::sqlite_plan;
use crate::sqlite_plan::{
    validate_transaction_plan, SqliteBatch, SqliteBatchRows, SqliteRow,
    SqliteTransactionPlan, SqliteTransactionStep, SqliteValue,
};
use crate::sqlite_row;
use crate::sqlite_row::{own_sqlite_row, SqliteColumn};

verus! {

/// What a transaction fails with.
#[derive(Debug, PartialEq, Eq)]
pub enum ExecuteTransactionError {
    NotFound,
    RequirementFailed,
    RequirementFailedWithRow { query_id: String, row: SqliteRow },
    RequirementFailedWithRowOutcomeUnknown {
        query_id: String,
        row: SqliteRow,
        source: Box<SqliteRuntimeError>,
    },
    NotCommitted(SqliteRuntimeError),
    OutcomeUnknown(SqliteRuntimeError),
}

/// What a transaction fails with when its connection is closed afterwards.
#[derive(Debug, PartialEq, Eq)]
pub enum ExecuteFinalTransactionError {
    NotFound,
    RequirementFailed,
    RequirementFailedWithRow { query_id: String, row: SqliteRow },
    RequirementFailedWithRowAndFinalizationFailed {
        query_id: String,
        row: SqliteRow,
        source: Box<SqliteRuntimeError>,
    },
    RequirementFailedWithRowOutcomeUnknown {
        query_id: String,
        row: SqliteRow,
        source: Box<SqliteRuntimeError>,
    },
    NotCommitted(SqliteRuntimeError),
    OutcomeUnknown(SqliteRuntimeError),
    CommittedButFinalizationFailed(SqliteRuntimeError),
}

/// The counters after a control statement that was tried and may have succeeded.
pub open spec fn control_counted(
    counts: RunPerformanceSnapshot,
    scope: SqliteTransactionScope,
    control: SqliteTransactionControl,
    succeeded: bool,
) -> RunPerformanceSnapshot {
    let tried = performance::recorded(counts, scope, control, true);
    if succeeded {
        performance::recorded(tried, scope, control, false)
    } else {
        tried
    }
}

/// Counts a control statement and hands its result on.
pub fn execute_transaction_control(
    performance: &mut RunPerformanceCounters,
    scope: SqliteTransactionScope,
    control: SqliteTransactionControl,
    outcome: Result<(), SqliteDriverError>,
) -> (result: Result<(), SqliteDriverError>)
    ensures
        result == outcome,
        final(performance)@ == control_counted(old(performance)@, scope, control, outcome is Ok),
{
    performance.record(scope, control, true);
    if outcome.is_ok() {
        performance.record(scope, control, false);
    }
    outcome
}

/// What a ROLLBACK came to: the statement's failure, or whether the connection was out of
/// the transaction afterwards.
#[derive(Debug, PartialEq, Eq)]
pub enum RollbackReply {
    Failed(SqliteDriverError),
    Succeeded { autocommit: bool },
}

/// A failure after its rollback: `Ok` when the rollback is certain.
pub open spec fn is_failure_after_rollback(
    primary: SqliteRuntimeError,
    reply: RollbackReply,
    wait_cancelled: bool,
    result: Result<SqliteRuntimeError, SqliteRuntimeError>,
) -> bool {
    match reply {
        RollbackReply::Succeeded { autocommit } => if autocommit {
            result == Ok::<SqliteRuntimeError, SqliteRuntimeError>(primary)
        } else {
            result matches Err(error) && error.is_followed_by(
                primary,
                SqliteRuntimeError::Internal("回滚返回成功后连接仍处于事务中"),
            )
        },
        RollbackReply::Failed(source) => result matches Err(error) && error.is_followed_by(
            primary,
            SqliteRuntimeError::of_driver("回滚事务", source, wait_cancelled),
        ),
    }
}

pub fn rollback_after_failure(
    primary: SqliteRuntimeError,
    reply: RollbackReply,
    wait_cancelled: bool,
) -> (result: Result<SqliteRuntimeError, SqliteRuntimeError>)
    ensures
        is_failure_after_rollback(primary, reply, wait_cancelled, result),
{
    match reply {
        RollbackReply::Succeeded { autocommit } => {
            if autocommit {
                Ok(primary)
            } else {
                Err(
                    SqliteRuntimeError::with_failure(
                        primary,
                        SqliteRuntimeError::Internal("回滚返回成功后连接仍处于事务中"),
                    ),
                )
            }
        },
        RollbackReply::Failed(source) => Err(
            SqliteRuntimeError::with_failure(
                primary,
                SqliteRuntimeError::driver("回滚事务", source, wait_cancelled),
            ),
        ),
    }
}

/// What is uncertain after the rollback of an unmet requirement.
pub open spec fn requirement_doubt(reply: RollbackReply, wait_cancelled: bool) -> Option<
    SqliteRuntimeError,
> {
    match reply {
        RollbackReply::Succeeded { autocommit } => if autocommit {
            None
        } else {
            Some(SqliteRuntimeError::Internal("事务条件失败回滚后仍非 autocommit"))
        },
        RollbackReply::Failed(source) => Some(
            SqliteRuntimeError::of_driver("回滚事务条件失败", source, wait_cancelled),
        ),
    }
}

fn doubt_after_rollback(reply: RollbackReply, wait_cancelled: bool) -> (doubt: Option<
    SqliteRuntimeError,
>)
    ensures
        doubt == requirement_doubt(reply, wait_cancelled),
{
    match reply {
        RollbackReply::Succeeded { autocommit } => {
            if autocommit {
                None
            } else {
                Some(SqliteRuntimeError::Internal("事务条件失败回滚后仍非 autocommit"))
            }
        },
        RollbackReply::Failed(source) => Some(
            SqliteRuntimeError::driver("回滚事务条件失败", source, wait_cancelled),
        ),
    }
}

/// An unmet requirement after its rollback.
pub fn rollback_requirement_failure(reply: RollbackReply, wait_cancelled: bool) -> (error:
    ExecuteTransactionError)
    ensures
        error == (match requirement_doubt(reply, wait_cancelled) {
            None => ExecuteTransactionError::RequirementFailed,
            Some(source) => ExecuteTransactionError::OutcomeUnknown(source),
        }),
{
    match doubt_after_rollback(reply, wait_cancelled) {
        None => ExecuteTransactionError::RequirementFailed,
        Some(source) => ExecuteTransactionError::OutcomeUnknown(source),
    }
}

/// An unmet requirement, with the row that broke it, after its rollback.
pub fn rollback_requirement_failure_with_row(
    query_id: String,
    row: SqliteRow,
    reply: RollbackReply,
    wait_cancelled: bool,
) -> (error: ExecuteTransactionError)
    ensures
        error == (match requirement_doubt(reply, wait_cancelled) {
            None => ExecuteTransactionError::RequirementFailedWithRow { query_id, row },
            Some(source) => ExecuteTransactionError::RequirementFailedWithRowOutcomeUnknown {
                query_id,
                row,
                source: Box::new(source),
            },
        }),
{
    match doubt_after_rollback(reply, wait_cancelled) {
        None => ExecuteTransactionError::RequirementFailedWithRow { query_id, row },
        Some(source) => ExecuteTransactionError::RequirementFailedWithRowOutcomeUnknown {
            query_id,
            row,
            source: Box::new(source),
        },
    }
}

/// Why a transaction is rolled back.
#[derive(Debug, PartialEq, Eq)]
pub enum RollbackCause {
    Failure(SqliteRuntimeError),
    Requirement,
    RequirementWithRow { query_id: String, row: SqliteRow },
}

/// How a rolled back transaction ends.
pub open spec fn is_rolled_back(
    cause: RollbackCause,
    reply: RollbackReply,
    wait_cancelled: bool,
    error: ExecuteTransactionError,
) -> bool {
    let doubt = requirement_doubt(reply, wait_cancelled);
    match cause {
        RollbackCause::Failure(primary) => match error {
            ExecuteTransactionError::NotCommitted(kept) => is_failure_after_rollback(
                primary,
                reply,
                wait_cancelled,
                Ok(kept),
            ),
            ExecuteTransactionError::OutcomeUnknown(source) => is_failure_after_rollback(
                primary,
                reply,
                wait_cancelled,
                Err(source),
            ),
            _ => false,
        },
        RollbackCause::Requirement => error == (match doubt {
            None => ExecuteTransactionError::RequirementFailed,
            Some(source) => ExecuteTransactionError::OutcomeUnknown(source),
        }),
        RollbackCause::RequirementWithRow { query_id, row } => error == (match doubt {
            None => ExecuteTransactionError::RequirementFailedWithRow { query_id, row },
            Some(source) => ExecuteTransactionError::RequirementFailedWithRowOutcomeUnknown {
                query_id,
                row,
                source: Box::new(source),
            },
        }),
    }
}

fn rolled_back(cause: RollbackCause, reply: RollbackReply, wait_cancelled: bool) -> (error:
    ExecuteTransactionError)
    ensures
        is_rolled_back(cause, reply, wait_cancelled, error),
{
    match cause {
        RollbackCause::Failure(primary) => match rollback_after_failure(
            primary,
            reply,
            wait_cancelled,
        ) {
            Ok(primary) => ExecuteTransactionError::NotCommitted(primary),
            Err(source) => ExecuteTransactionError::OutcomeUnknown(source),
        },
        RollbackCause::Requirement => rollback_requirement_failure(reply, wait_cancelled),
        RollbackCause::RequirementWithRow { query_id, row } => rollback_requirement_failure_with_row(
            query_id,
            row,
            reply,
            wait_cancelled,
        ),
    }
}

/// The batch of a step that has one.
pub open spec fn batch_of(step: SqliteTransactionStep) -> Option<SqliteBatch> {
    match step {
        SqliteTransactionStep::ExecuteMany(batch) => Some(batch),
        SqliteTransactionStep::ExecuteManyExactlyOne(batch) => Some(batch),
        SqliteTransactionStep::RequireNoRowsMany(batch) => Some(batch),
        _ => None,
    }
}

fn step_batch(step: &SqliteTransactionStep) -> (batch: Option<&SqliteBatch>)
    ensures
        match batch {
            Some(batch) => batch_of(*step) == Some(*batch),
            None => batch_of(*step) is None,
        },
{
    match step {
        SqliteTransactionStep::ExecuteMany(batch) => Some(batch),
        SqliteTransactionStep::ExecuteManyExactlyOne(batch) => Some(batch),
        SqliteTransactionStep::RequireNoRowsMany(batch) => Some(batch),
        _ => None,
    }
}

/// The rows of a batch that runs row by row.
pub open spec fn rows_of(batch: SqliteBatch) -> Seq<Vec<SqliteValue>> {
    match batch.listed() {
        SqliteBatchRows::Each(rows) => rows@,
        SqliteBatchRows::Bulk { .. } => Seq::empty(),
    }
}

/// The values of a batch that inserts many rows per statement.
pub open spec fn bulk_values(batch: SqliteBatch) -> Option<Seq<SqliteValue>> {
    match batch.listed() {
        SqliteBatchRows::Bulk { values, .. } => Some(values@),
        SqliteBatchRows::Each(_) => None,
    }
}

/// The statement of a step.
pub open spec fn sql_of(step: SqliteTransactionStep) -> Seq<char> {
    match step {
        SqliteTransactionStep::Execute(command) => command.sql(),
        SqliteTransactionStep::ExecuteMany(batch) => batch.sql(),
        SqliteTransactionStep::ExecuteManyExactlyOne(batch) => batch.sql(),
        SqliteTransactionStep::RequireNoRowsMany(batch) => batch.sql(),
        SqliteTransactionStep::RequireNoRows(query) => query.sql(),
        SqliteTransactionStep::RequireNoRowsReturningFirstRow(query) => query.sql(),
    }
}

fn step_statement(step: &SqliteTransactionStep) -> (statement: &str)
    ensures
        statement@ == sql_of(*step),
{
    match step {
        SqliteTransactionStep::Execute(command) => command.statement(),
        SqliteTransactionStep::ExecuteMany(batch) => batch.statement(),
        SqliteTransactionStep::ExecuteManyExactlyOne(batch) => batch.statement(),
        SqliteTransactionStep::RequireNoRowsMany(batch) => batch.statement(),
        SqliteTransactionStep::RequireNoRows(query) => query.statement(),
        SqliteTransactionStep::RequireNoRowsReturningFirstRow(query) => query.statement(),
    }
}

/// What preparing a step's statement is called in failures.
pub open spec fn prepare_operation(step: SqliteTransactionStep) -> &'static str {
    match step {
        SqliteTransactionStep::Execute(_) => "准备事务命令",
        SqliteTransactionStep::ExecuteMany(_) => "准备批量命令",
        SqliteTransactionStep::ExecuteManyExactlyOne(_) => "准备精确批量命令",
        SqliteTransactionStep::RequireNoRows(_) => "准备事务条件查询",
        SqliteTransactionStep::RequireNoRowsReturningFirstRow(_) => "准备带诊断行的事务条件查询",
        SqliteTransactionStep::RequireNoRowsMany(_) => "准备批量事务条件查询",
    }
}

fn prepare_operation_text(step: &SqliteTransactionStep) -> (operation: &'static str)
    ensures
        operation == prepare_operation(*step),
{
    match step {
        SqliteTransactionStep::Execute(_) => "准备事务命令",
        SqliteTransactionStep::ExecuteMany(_) => "准备批量命令",
        SqliteTransactionStep::ExecuteManyExactlyOne(_) => "准备精确批量命令",
        SqliteTransactionStep::RequireNoRows(_) => "准备事务条件查询",
        SqliteTransactionStep::RequireNoRowsReturningFirstRow(_) => "准备带诊断行的事务条件查询",
        SqliteTransactionStep::RequireNoRowsMany(_) => "准备批量事务条件查询",
    }
}

/// What running a step's statement is called in failures.
pub open spec fn run_operation(step: SqliteTransactionStep) -> &'static str {
    match step {
        SqliteTransactionStep::Execute(_) => "执行事务命令",
        SqliteTransactionStep::ExecuteMany(_) => "执行批量命令",
        SqliteTransactionStep::ExecuteManyExactlyOne(_) => "执行精确批量命令",
        SqliteTransactionStep::RequireNoRows(_) => "执行事务条件查询",
        SqliteTransactionStep::RequireNoRowsReturningFirstRow(_) => "执行带诊断行的事务条件查询",
        SqliteTransactionStep::RequireNoRowsMany(_) => "执行批量事务条件查询",
    }
}

fn run_operation_text(step: &SqliteTransactionStep) -> (operation: &'static str)
    ensures
        operation == run_operation(*step),
{
    match step {
        SqliteTransactionStep::Execute(_) => "执行事务命令",
        SqliteTransactionStep::ExecuteMany(_) => "执行批量命令",
        SqliteTransactionStep::ExecuteManyExactlyOne(_) => "执行精确批量命令",
        SqliteTransactionStep::RequireNoRows(_) => "执行事务条件查询",
        SqliteTransactionStep::RequireNoRowsReturningFirstRow(_) => "执行带诊断行的事务条件查询",
        SqliteTransactionStep::RequireNoRowsMany(_) => "执行批量事务条件查询",
    }
}

/// What binding the parameters that all rows share is called in failures.
pub open spec fn bind_shared_operation(step: SqliteTransactionStep) -> &'static str {
    match step {
        SqliteTransactionStep::ExecuteManyExactlyOne(_) => "绑定精确批量命令公共参数",
        SqliteTransactionStep::RequireNoRowsMany(_) => "绑定批量事务条件公共参数",
        _ => "绑定批量命令公共参数",
    }
}

fn bind_shared_operation_text(step: &SqliteTransactionStep) -> (operation: &'static str)
    ensures
        operation == bind_shared_operation(*step),
{
    match step {
        SqliteTransactionStep::ExecuteManyExactlyOne(_) => "绑定精确批量命令公共参数",
        SqliteTransactionStep::RequireNoRowsMany(_) => "绑定批量事务条件公共参数",
        _ => "绑定批量命令公共参数",
    }
}

/// What binding the parameters of one row is called in failures.
pub open spec fn bind_row_operation(step: SqliteTransactionStep) -> &'static str {
    match step {
        SqliteTransactionStep::ExecuteManyExactlyOne(_) => "绑定精确批量命令参数",
        SqliteTransactionStep::RequireNoRowsMany(_) => "绑定批量事务条件参数",
        _ => "绑定批量命令参数",
    }
}

fn bind_row_operation_text(step: &SqliteTransactionStep) -> (operation: &'static str)
    ensures
        operation == bind_row_operation(*step),
{
    match step {
        SqliteTransactionStep::ExecuteManyExactlyOne(_) => "绑定精确批量命令参数",
        SqliteTransactionStep::RequireNoRowsMany(_) => "绑定批量事务条件参数",
        _ => "绑定批量命令参数",
    }
}

/// How the first row of a query was read.
#[derive(Debug, PartialEq, Eq)]
pub enum FirstRowReply {
    BindFailed(SqliteDriverError),
    StepFailed(SqliteDriverError),
    Absent,
    Row(Vec<Result<SqliteColumn, SqliteDriverError>>),
}

/// Where a transaction stands.
#[derive(Debug, PartialEq, Eq)]
pub enum TransactionState {
    Beginning,
    Preparing { step: usize },
    Running { step: usize },
    /// The statement takes `expected` parameters; shared parameter `next` is the next.
    BindingShared { step: usize, expected: usize, next: usize },
    BindingRow { step: usize, expected: usize, row: usize, next: usize },
    RunningRow { step: usize, expected: usize, row: usize },
    ReadingVariableLimit { step: usize },
    PreparingInsert { step: usize, layout: BulkLayout, start: usize, sql: String },
    RunningInsert { step: usize, layout: BulkLayout, start: usize },
    /// The step is done; the transaction must still be open.
    CheckingStep { step: usize },
    Committing,
    CheckingCommit { failure: Option<SqliteRuntimeError> },
    RollingBack { cause: RollbackCause },
    CheckingRollback { cause: RollbackCause },
    Finished { result: Result<(), ExecuteTransactionError> },
}

/// What to ask the connection for.
#[derive(Debug, PartialEq, Eq)]
pub enum TransactionRequest<'a> {
    /// Run the control statement.
    Control { control: SqliteTransactionControl, statement: &'static str },
    /// Prepare the statement and say how many parameters it takes.
    Prepare { statement: &'a str },
    /// Run the prepared statement with these parameters.
    Execute { parameters: &'a Vec<SqliteValue> },
    /// Whether the prepared statement gives a row with these parameters.
    Exists { parameters: &'a Vec<SqliteValue> },
    /// The first row that the prepared statement gives with these parameters.
    FirstRow { parameters: &'a Vec<SqliteValue> },
    /// Bind one parameter of the prepared statement; the first has index 1.
    Bind { index: usize, value: &'a SqliteValue },
    /// Run the prepared statement with what is bound, and say how many rows it changed.
    ExecuteBound,
    /// Whether the prepared statement gives a row with what is bound.
    ExistsBound,
    /// How many variables a statement may have.
    VariableLimit,
    PrepareInsert { statement: &'a str },
    /// Run the prepared INSERT with the shared parameters and `count` values from `start`.
    ExecuteInsert {
        shared: &'a Vec<SqliteValue>,
        values: &'a Vec<SqliteValue>,
        start: usize,
        count: usize,
    },
    /// Whether no transaction is open.
    Autocommit,
    Nothing,
}

/// What the connection answered.
#[derive(Debug, PartialEq, Eq)]
pub enum TransactionReply {
    Done(Result<(), SqliteDriverError>),
    Count(Result<usize, SqliteDriverError>),
    Found(Result<bool, SqliteDriverError>),
    FirstRow(FirstRowReply),
    Limit(Result<i32, SqliteDriverError>),
    Autocommit(bool),
}

impl TransactionState {
    /// The step at work.
    pub open spec fn step(self) -> Option<int> {
        match self {
            TransactionState::Preparing { step } => Some(step as int),
            TransactionState::Running { step } => Some(step as int),
            TransactionState::BindingShared { step, .. } => Some(step as int),
            TransactionState::BindingRow { step, .. } => Some(step as int),
            TransactionState::RunningRow { step, .. } => Some(step as int),
            TransactionState::ReadingVariableLimit { step } => Some(step as int),
            TransactionState::PreparingInsert { step, .. } => Some(step as int),
            TransactionState::RunningInsert { step, .. } => Some(step as int),
            TransactionState::CheckingStep { step } => Some(step as int),
            _ => None,
        }
    }

    /// Whether the state is one of a run of `steps`.
    pub open spec fn fits(self, steps: Seq<SqliteTransactionStep>) -> bool {
        &&& self.step() matches Some(step) ==> step < steps.len()
        &&& match self {
            TransactionState::Preparing { step } => (match batch_of(steps[step as int]) {
                Some(batch) => bulk_values(batch) is None,
                None => true,
            }),
            TransactionState::Running { step } => batch_of(steps[step as int]) is None,
            TransactionState::BindingShared { step, next, .. } => {
                &&& batch_of(steps[step as int]) matches Some(batch)
                &&& bulk_values(batch) is None
                &&& next < batch.shared().len()
            },
            TransactionState::BindingRow { step, row, next, .. } => {
                &&& batch_of(steps[step as int]) matches Some(batch)
                &&& bulk_values(batch) is None
                &&& row < rows_of(batch).len()
                &&& next < rows_of(batch)[row as int]@.len()
                &&& batch.shared().len() + rows_of(batch)[row as int]@.len() <= usize::MAX
            },
            TransactionState::RunningRow { step, row, .. } => {
                &&& batch_of(steps[step as int]) matches Some(batch)
                &&& bulk_values(batch) is None
                &&& row < rows_of(batch).len()
            },
            TransactionState::ReadingVariableLimit { step } => {
                &&& steps[step as int] matches SqliteTransactionStep::ExecuteMany(batch)
                &&& bulk_values(batch) matches Some(values)
                &&& values.len() > 0
            },
            TransactionState::PreparingInsert { step, layout, start, .. } => is_insert_place(
                steps[step as int],
                layout,
                start as int,
            ),
            TransactionState::RunningInsert { step, layout, start } => is_insert_place(
                steps[step as int],
                layout,
                start as int,
            ),
            _ => true,
        }
    }
}

/// Whether the next INSERT of a bulk step starts at value `start`.
pub open spec fn is_insert_place(step: SqliteTransactionStep, layout: BulkLayout, start: int) -> bool {
    &&& step matches SqliteTransactionStep::ExecuteMany(batch)
    &&& batch.listed() matches SqliteBatchRows::Bulk { row_parameter_count, values }
    &&& layout.fits()
    &&& layout.shared_variables() == batch.shared().len()
    &&& layout.row_width() == row_parameter_count
    &&& layout.values() == values@.len()
    &&& 0 <= start < values@.len()
    &&& start % layout.row_width() == 0
}

/// Whether every step of a plan is acceptable.
pub open spec fn is_sound(steps: Seq<SqliteTransactionStep>) -> bool {
    forall|i: int| 0 <= i < steps.len() ==> sqlite_plan::step_fault(#[trigger] steps[i]) is None
}

proof fn lemma_accepted_plan_is_sound(plan: SqliteTransactionPlan)
    requires
        sqlite_plan::plan_fault(plan) is None,
    ensures
        is_sound(plan.planned()),
{
    let faulty = sqlite_plan::faulty_steps(plan.planned());
    search::lemma_first_meaning(faulty, 0, plan.planned().len() as int);
    assert forall|i: int| 0 <= i < plan.planned().len() implies sqlite_plan::step_fault(
        #[trigger] plan.planned()[i],
    ) is None by {
        assert(!faulty(i));
    }
}

/// The state in which `error` is about to be rolled back.
pub open spec fn failing(error: SqliteRuntimeError) -> TransactionState {
    TransactionState::RollingBack { cause: RollbackCause::Failure(error) }
}

fn fail(error: SqliteRuntimeError) -> (next: TransactionState)
    ensures
        next == failing(error),
{
    TransactionState::RollingBack { cause: RollbackCause::Failure(error) }
}

/// The state in which a wrong number of parameters is about to be rolled back.
pub open spec fn is_miscounted(
    next: TransactionState,
    operation: &'static str,
    provided: int,
    expected: usize,
) -> bool {
    &&& next matches TransactionState::RollingBack {
        cause: RollbackCause::Failure(SqliteRuntimeError::Driver { operation: o, source }),
    }
    &&& o == operation
    &&& source.is_parameter_count(provided as usize, expected)
}

fn miscount(operation: &'static str, provided: usize, expected: usize) -> (next: TransactionState)
    ensures
        is_miscounted(next, operation, provided as int, expected),
{
    fail(
        SqliteRuntimeError::driver(
            operation,
            SqliteDriverError::invalid_parameter_count(provided, expected),
            false,
        ),
    )
}

/// How step `step` starts; after the last one comes the commit.
pub open spec fn started_step(steps: Seq<SqliteTransactionStep>, step: int) -> TransactionState {
    if step >= steps.len() {
        TransactionState::Committing
    } else {
        match batch_of(steps[step]) {
            Some(batch) => match bulk_values(batch) {
                Some(values) => if values.len() == 0 {
                    TransactionState::CheckingStep { step: step as usize }
                } else {
                    TransactionState::ReadingVariableLimit { step: step as usize }
                },
                None => TransactionState::Preparing { step: step as usize },
            },
            None => TransactionState::Preparing { step: step as usize },
        }
    }
}

fn start_step(plan: &SqliteTransactionPlan, step: usize) -> (next: TransactionState)
    requires
        step <= plan.planned().len(),
        is_sound(plan.planned()),
    ensures
        next == started_step(plan.planned(), step as int),
        next.fits(plan.planned()),
{
    let steps = plan.steps();
    if step == steps.len() {
        return TransactionState::Committing;
    }
    assert(sqlite_plan::step_fault(steps@[step as int]) is None);
    if let Some(batch) = step_batch(&steps[step]) {
        if let SqliteBatchRows::Bulk { values, .. } = batch.rows() {
            return if values.len() == 0 {
                TransactionState::CheckingStep { step }
            } else {
                TransactionState::ReadingVariableLimit { step }
            };
        }
    }
    TransactionState::Preparing { step }
}

/// What comes before value `from` of row `row` is bound.
pub open spec fn started_value(batch: SqliteBatch, step: int, expected: usize, row: int, from: int) -> TransactionState {
    if from < rows_of(batch)[row]@.len() {
        TransactionState::BindingRow {
            step: step as usize,
            expected,
            row: row as usize,
            next: from as usize,
        }
    } else {
        TransactionState::RunningRow { step: step as usize, expected, row: row as usize }
    }
}

/// How row `row` of a batch starts; after the last one the step is done.
pub open spec fn starts_row(
    steps: Seq<SqliteTransactionStep>,
    step: int,
    expected: usize,
    row: int,
    next: TransactionState,
) -> bool {
    let batch = batch_of(steps[step])->0;
    let rows = rows_of(batch);
    let provided = batch.shared().len() + rows[row]@.len();
    if row >= rows.len() {
        next == (TransactionState::CheckingStep { step: step as usize })
    } else if provided > usize::MAX {
        next == failing(SqliteRuntimeError::Internal("SQLite 参数数量溢出"))
    } else if provided != expected {
        is_miscounted(next, bind_row_operation(steps[step]), provided as int, expected)
    } else {
        next == started_value(batch, step, expected, row, 0)
    }
}

fn start_row(plan: &SqliteTransactionPlan, step: usize, expected: usize, row: usize) -> (next:
    TransactionState)
    requires
        step < plan.planned().len(),
        batch_of(plan.planned()[step as int]) matches Some(batch) && bulk_values(batch) is None && row
            <= rows_of(batch).len(),
    ensures
        starts_row(plan.planned(), step as int, expected, row as int, next),
        next.fits(plan.planned()),
{
    let steps = plan.steps();
    if let Some(batch) = step_batch(&steps[step]) {
        if let SqliteBatchRows::Each(rows) = batch.rows() {
            if row < rows.len() {
                let provided: usize = match batch.shared_parameters().len().checked_add(rows[row].len()) {
                    Some(provided) => provided,
                    None => {
                        return fail(SqliteRuntimeError::Internal("SQLite 参数数量溢出"));
                    },
                };
                if provided != expected {
                    return miscount(bind_row_operation_text(&steps[step]), provided, expected);
                }
                return if rows[row].len() > 0 {
                    TransactionState::BindingRow { step, expected, row, next: 0 }
                } else {
                    TransactionState::RunningRow { step, expected, row }
                };
            }
        }
    }
    TransactionState::CheckingStep { step }
}

/// What comes before shared parameter `from` is bound; after the last one come the rows.
pub open spec fn starts_shared(
    steps: Seq<SqliteTransactionStep>,
    step: int,
    expected: usize,
    from: int,
    next: TransactionState,
) -> bool {
    let batch = batch_of(steps[step])->0;
    if from < batch.shared().len() {
        next == (TransactionState::BindingShared { step: step as usize, expected, next: from as usize })
    } else if batch.shared().len() + 1 > usize::MAX {
        next == failing(SqliteRuntimeError::Internal("SQLite 参数编号溢出"))
    } else {
        starts_row(steps, step, expected, 0, next)
    }
}

fn start_shared(plan: &SqliteTransactionPlan, step: usize, expected: usize, from: usize) -> (next:
    TransactionState)
    requires
        step < plan.planned().len(),
        batch_of(plan.planned()[step as int]) matches Some(batch) && bulk_values(batch) is None,
    ensures
        starts_shared(plan.planned(), step as int, expected, from as int, next),
        next.fits(plan.planned()),
{
    let steps = plan.steps();
    if let Some(batch) = step_batch(&steps[step]) {
        let shared: usize = batch.shared_parameters().len();
        if from < shared {
            return TransactionState::BindingShared { step, expected, next: from };
        }
        if shared.checked_add(1).is_none() {
            return fail(SqliteRuntimeError::Internal("SQLite 参数编号溢出"));
        }
    }
    start_row(plan, step, expected, 0)
}

/// How the INSERT from value `start` on is prepared; after the last one the step is done.
pub open spec fn starts_insert(
    steps: Seq<SqliteTransactionStep>,
    step: int,
    layout: BulkLayout,
    start: int,
    next: TransactionState,
) -> bool {
    if start >= layout.values() {
        next == (TransactionState::CheckingStep { step: step as usize })
    } else {
        &&& next matches TransactionState::PreparingInsert { step: s, layout: l, start: at, sql }
        &&& s == step
        &&& l == layout
        &&& at == start
        &&& sql@ == sqlite_bulk::bulk_statement(
            sql_of(steps[step]),
            layout.shared_variables(),
            layout.row_width(),
            (layout.end_of(start) - start) / layout.row_width(),
        )
    }
}

fn start_insert(plan: &SqliteTransactionPlan, step: usize, layout: BulkLayout, start: usize) -> (next:
    TransactionState)
    requires
        step < plan.planned().len(),
        start < layout.values() ==> is_insert_place(plan.planned()[step as int], layout, start as int),
        layout.fits(),
    ensures
        starts_insert(plan.planned(), step as int, layout, start as int, next),
        next.fits(plan.planned()),
{
    if start >= layout.total() {
        return TransactionState::CheckingStep { step };
    }
    let steps = plan.steps();
    let count: usize = layout.count_from(start);
    proof {
        sqlite_bulk::bulk_statements_cover_all_rows(layout, start as int);
    }
    match layout.statement(step_statement(&steps[step]), count) {
        Ok(sql) => TransactionState::PreparingInsert { step, layout, start, sql },
        Err(error) => fail(error),
    }
}

impl TransactionState {
    /// The control statement that the state stands before.
    pub open spec fn control(self) -> Option<SqliteTransactionControl> {
        match self {
            TransactionState::Beginning => Some(SqliteTransactionControl::Begin),
            TransactionState::Committing => Some(SqliteTransactionControl::Commit),
            TransactionState::RollingBack { .. } => Some(SqliteTransactionControl::Rollback),
            _ => None,
        }
    }

    /// Whether `reply` answers what the state asks for.
    pub open spec fn expects(self, steps: Seq<SqliteTransactionStep>, reply: TransactionReply) -> bool {
        match self {
            TransactionState::Preparing { .. } => reply is Count,
            TransactionState::Running { step } => match steps[step as int] {
                SqliteTransactionStep::RequireNoRows(_) => reply is Found,
                SqliteTransactionStep::RequireNoRowsReturningFirstRow(_) => reply is FirstRow,
                _ => reply is Done,
            },
            TransactionState::RunningRow { step, .. } => match steps[step as int] {
                SqliteTransactionStep::RequireNoRowsMany(_) => reply is Found,
                _ => reply is Count,
            },
            TransactionState::ReadingVariableLimit { .. } => reply is Limit,
            TransactionState::CheckingStep { .. } => reply is Autocommit,
            TransactionState::CheckingCommit { .. } => reply is Autocommit,
            TransactionState::CheckingRollback { .. } => reply is Autocommit,
            TransactionState::Finished { .. } => false,
            _ => reply is Done,
        }
    }

    /// Whether `next` comes after this state when a call that gives nothing back ended
    /// with `result`.
    pub open spec fn after_done(
        self,
        steps: Seq<SqliteTransactionStep>,
        result: Result<(), SqliteDriverError>,
        cancelled: bool,
        next: TransactionState,
    ) -> bool {
        match (self, result) {
            (TransactionState::Beginning, Ok(())) => next == started_step(steps, 0),
            (TransactionState::Beginning, Err(source)) => next == (TransactionState::Finished {
                result: Err(
                    ExecuteTransactionError::NotCommitted(
                        SqliteRuntimeError::of_driver("开始写事务", source, cancelled),
                    ),
                ),
            }),
            (TransactionState::Running { step }, Ok(())) => next == (TransactionState::CheckingStep {
                step,
            }),
            (TransactionState::Running { step }, Err(source)) => next == failing(
                SqliteRuntimeError::of_driver(run_operation(steps[step as int]), source, cancelled),
            ),
            (TransactionState::BindingShared { step, expected, next: from }, Ok(())) => starts_shared(
                steps,
                step as int,
                expected,
                from + 1,
                next,
            ),
            (TransactionState::BindingShared { step, .. }, Err(source)) => next == failing(
                SqliteRuntimeError::of_driver(
                    bind_shared_operation(steps[step as int]),
                    source,
                    cancelled,
                ),
            ),
            (TransactionState::BindingRow { step, expected, row, next: from }, Ok(())) => next
                == started_value(
                batch_of(steps[step as int])->0,
                step as int,
                expected,
                row as int,
                from + 1,
            ),
            (TransactionState::BindingRow { step, .. }, Err(source)) => next == failing(
                SqliteRuntimeError::of_driver(
                    bind_row_operation(steps[step as int]),
                    source,
                    cancelled,
                ),
            ),
            (TransactionState::PreparingInsert { step, layout, start, .. }, Ok(())) => next == (
            TransactionState::RunningInsert { step, layout, start }),
            (TransactionState::PreparingInsert { .. }, Err(source)) => next == failing(
                SqliteRuntimeError::of_driver("准备 bulk INSERT", source, cancelled),
            ),
            (TransactionState::RunningInsert { step, layout, start }, Ok(())) => starts_insert(
                steps,
                step as int,
                layout,
                layout.end_of(start as int),
                next,
            ),
            (TransactionState::RunningInsert { .. }, Err(source)) => next == failing(
                SqliteRuntimeError::of_driver("执行 bulk INSERT", source, cancelled),
            ),
            (TransactionState::Committing, Ok(())) => next == (TransactionState::CheckingCommit {
                failure: None,
            }),
            (TransactionState::Committing, Err(source)) => next == (TransactionState::CheckingCommit {
                failure: Some(SqliteRuntimeError::of_driver("提交写事务", source, cancelled)),
            }),
            (TransactionState::RollingBack { cause }, Ok(())) => next == (
            TransactionState::CheckingRollback { cause }),
            (TransactionState::RollingBack { cause }, Err(source)) => {
                &&& next matches TransactionState::Finished { result: Err(error) }
                &&& is_rolled_back(cause, RollbackReply::Failed(source), cancelled, error)
            },
            _ => false,
        }
    }

    /// Whether `next` comes after this state when a number was given back.
    pub open spec fn after_count(
        self,
        steps: Seq<SqliteTransactionStep>,
        result: Result<usize, SqliteDriverError>,
        cancelled: bool,
        next: TransactionState,
    ) -> bool {
        match (self, result) {
            (TransactionState::Preparing { step }, Ok(expected)) => match batch_of(steps[step as int]) {
                Some(batch) => if batch.shared().len() > expected {
                    is_miscounted(
                        next,
                        bind_shared_operation(steps[step as int]),
                        batch.shared().len() as int,
                        expected,
                    )
                } else {
                    starts_shared(steps, step as int, expected, 0, next)
                },
                None => next == (TransactionState::Running { step }),
            },
            (TransactionState::Preparing { step }, Err(source)) => next == failing(
                SqliteRuntimeError::of_driver(
                    prepare_operation(steps[step as int]),
                    source,
                    cancelled,
                ),
            ),
            (TransactionState::RunningRow { step, expected, row }, Ok(changed)) => if steps[step as int]
                is ExecuteManyExactlyOne && changed != 1 {
                next == (TransactionState::RollingBack { cause: RollbackCause::Requirement })
            } else {
                starts_row(steps, step as int, expected, row + 1, next)
            },
            (TransactionState::RunningRow { step, .. }, Err(source)) => next == failing(
                SqliteRuntimeError::of_driver(run_operation(steps[step as int]), source, cancelled),
            ),
            _ => false,
        }
    }

    /// Whether `next` comes after this state when a row was looked for.
    pub open spec fn after_search(
        self,
        steps: Seq<SqliteTransactionStep>,
        result: Result<bool, SqliteDriverError>,
        cancelled: bool,
        next: TransactionState,
    ) -> bool {
        let step = self.step()->0;
        match result {
            Ok(true) => next == (TransactionState::RollingBack { cause: RollbackCause::Requirement }),
            Ok(false) => match self {
                TransactionState::Running { step } => next == (TransactionState::CheckingStep { step }),
                TransactionState::RunningRow { step, expected, row } => starts_row(
                    steps,
                    step as int,
                    expected,
                    row + 1,
                    next,
                ),
                _ => false,
            },
            Err(source) => next == failing(
                SqliteRuntimeError::of_driver(run_operation(steps[step]), source, cancelled),
            ),
        }
    }

    /// Whether `next` comes after this state when a query's first row was read.
    pub open spec fn after_first_row(
        self,
        steps: Seq<SqliteTransactionStep>,
        reply: FirstRowReply,
        cancelled: bool,
        next: TransactionState,
    ) -> bool {
        let step = self.step()->0;
        match reply {
            FirstRowReply::BindFailed(source) => next == failing(
                SqliteRuntimeError::of_driver("绑定带诊断行的事务条件查询参数", source, cancelled),
            ),
            FirstRowReply::StepFailed(source) => next == failing(
                SqliteRuntimeError::of_driver(run_operation(steps[step]), source, cancelled),
            ),
            FirstRowReply::Absent => next == (TransactionState::CheckingStep { step: step as usize }),
            FirstRowReply::Row(columns) => match sqlite_row::row_fault(columns@, cancelled) {
                Some(error) => next == failing(error),
                None => {
                    &&& next matches TransactionState::RollingBack {
                        cause: RollbackCause::RequirementWithRow { query_id, row },
                    }
                    &&& steps[step] matches SqliteTransactionStep::RequireNoRowsReturningFirstRow(query)
                    &&& query_id@ == query.named()
                    &&& sqlite_row::row_holds(columns@, row.columns())
                },
            },
        }
    }

    /// Whether `next` comes after this state when the variable limit was read.
    pub open spec fn after_limit(
        self,
        steps: Seq<SqliteTransactionStep>,
        limit: Result<i32, SqliteDriverError>,
        cancelled: bool,
        next: TransactionState,
    ) -> bool {
        let step = self.step()->0;
        match limit {
            Err(source) => next == failing(
                SqliteRuntimeError::of_driver("读取 SQLite 变量上限", source, cancelled),
            ),
            Ok(limit) => if limit <= 0 {
                next == failing(SqliteRuntimeError::Internal("SQLite 变量上限必须为正整数"))
            } else {
                &&& batch_of(steps[step]) matches Some(batch)
                &&& batch.listed() matches SqliteBatchRows::Bulk { row_parameter_count: width, values }
                &&& if sqlite_bulk::rows_that_fit(limit as usize, batch.shared().len() as usize, width)
                    == 0 {
                    is_miscounted(
                        next,
                        "规划 bulk INSERT 变量分块",
                        batch.shared().len() + width,
                        limit as usize,
                    )
                } else {
                    exists|layout: BulkLayout|
                        {
                            &&& #[trigger] starts_insert(steps, step, layout, 0, next)
                            &&& is_insert_place(steps[step], layout, 0)
                            &&& layout.allowed_variables() == limit
                            &&& layout.values_per_statement() == sqlite_bulk::rows_that_fit(
                                limit as usize,
                                batch.shared().len() as usize,
                                width,
                            ) * width
                        }
                }
            },
        }
    }

    /// Whether `next` comes after this state when the connection said whether no
    /// transaction is open.
    pub open spec fn after_autocommit(
        self,
        steps: Seq<SqliteTransactionStep>,
        autocommit: bool,
        cancelled: bool,
        next: TransactionState,
    ) -> bool {
        match self {
            TransactionState::CheckingStep { step } => if autocommit {
                next == (TransactionState::Finished {
                    result: Err(
                        ExecuteTransactionError::OutcomeUnknown(
                            SqliteRuntimeError::Internal("事务步骤意外结束了根事务"),
                        ),
                    ),
                })
            } else {
                next == started_step(steps, step + 1)
            },
            TransactionState::CheckingCommit { failure: None } => next == (TransactionState::Finished {
                result: if autocommit {
                    Ok(())
                } else {
                    Err(
                        ExecuteTransactionError::OutcomeUnknown(
                            SqliteRuntimeError::Internal("COMMIT 成功后连接仍非 autocommit"),
                        ),
                    )
                },
            }),
            TransactionState::CheckingCommit { failure: Some(error) } => if autocommit {
                next == (TransactionState::Finished {
                    result: Err(ExecuteTransactionError::OutcomeUnknown(error)),
                })
            } else {
                next == failing(error)
            },
            TransactionState::CheckingRollback { cause } => {
                &&& next matches TransactionState::Finished { result: Err(error) }
                &&& is_rolled_back(cause, RollbackReply::Succeeded { autocommit }, cancelled, error)
            },
            _ => false,
        }
    }

    /// Whether `next` comes after this state when the connection gave `reply`.
    pub open spec fn leads_to(
        self,
        steps: Seq<SqliteTransactionStep>,
        reply: TransactionReply,
        cancelled: bool,
        next: TransactionState,
    ) -> bool {
        &&& self.expects(steps, reply)
        &&& match reply {
            TransactionReply::Done(result) => self.after_done(steps, result, cancelled, next),
            TransactionReply::Count(result) => self.after_count(steps, result, cancelled, next),
            TransactionReply::Found(result) => self.after_search(steps, result, cancelled, next),
            TransactionReply::FirstRow(row) => self.after_first_row(steps, row, cancelled, next),
            TransactionReply::Limit(limit) => self.after_limit(steps, limit, cancelled, next),
            TransactionReply::Autocommit(autocommit) => self.after_autocommit(
                steps,
                autocommit,
                cancelled,
                next,
            ),
        }
    }

    fn done(self, plan: &SqliteTransactionPlan, result: Result<(), SqliteDriverError>, cancelled: bool) -> (next:
        Self)
        requires
            is_sound(plan.planned()),
            self.fits(plan.planned()),
            self.expects(plan.planned(), TransactionReply::Done(result)),
        ensures
            self.after_done(plan.planned(), result, cancelled, next),
            next.fits(plan.planned()),
    {
        proof {
            if let Some(step) = self.step() {
                sqlite_plan::lemma_plan_size(*plan);
                sqlite_plan::lemma_batch_sizes(batch_of(plan.planned()[step])->0);
            }
        }
        match result {
            Ok(()) => match self {
                TransactionState::Beginning => start_step(plan, 0),
                TransactionState::Running { step } => TransactionState::CheckingStep { step },
                TransactionState::BindingShared { step, expected, next } => start_shared(
                    plan,
                    step,
                    expected,
                    next + 1,
                ),
                TransactionState::BindingRow { step, expected, row, next } => {
                    let steps = plan.steps();
                    if let Some(batch) = step_batch(&steps[step]) {
                        if let SqliteBatchRows::Each(rows) = batch.rows() {
                            if next + 1 < rows[row].len() {
                                return TransactionState::BindingRow {
                                    step,
                                    expected,
                                    row,
                                    next: next + 1,
                                };
                            }
                        }
                    }
                    TransactionState::RunningRow { step, expected, row }
                },
                TransactionState::PreparingInsert { step, layout, start, .. } =>
                TransactionState::RunningInsert { step, layout, start },
                TransactionState::RunningInsert { step, layout, start } => {
                    let count: usize = layout.count_from(start);
                    proof {
                        sqlite_bulk::bulk_statements_cover_all_rows(layout, start as int);
                    }
                    start_insert(plan, step, layout, start + count)
                },
                TransactionState::Committing => TransactionState::CheckingCommit { failure: None },
                TransactionState::RollingBack { cause } => TransactionState::CheckingRollback { cause },
                _ => unreached(),
            },
            Err(source) => match self {
                TransactionState::Beginning => TransactionState::Finished {
                    result: Err(
                        ExecuteTransactionError::NotCommitted(
                            SqliteRuntimeError::driver("开始写事务", source, cancelled),
                        ),
                    ),
                },
                TransactionState::Running { step } => fail(
                    SqliteRuntimeError::driver(
                        run_operation_text(&plan.steps()[step]),
                        source,
                        cancelled,
                    ),
                ),
                TransactionState::BindingShared { step, .. } => fail(
                    SqliteRuntimeError::driver(
                        bind_shared_operation_text(&plan.steps()[step]),
                        source,
                        cancelled,
                    ),
                ),
                TransactionState::BindingRow { step, .. } => fail(
                    SqliteRuntimeError::driver(
                        bind_row_operation_text(&plan.steps()[step]),
                        source,
                        cancelled,
                    ),
                ),
                TransactionState::PreparingInsert { .. } => fail(
                    SqliteRuntimeError::driver("准备 bulk INSERT", source, cancelled),
                ),
                TransactionState::RunningInsert { .. } => fail(
                    SqliteRuntimeError::driver("执行 bulk INSERT", source, cancelled),
                ),
                TransactionState::Committing => TransactionState::CheckingCommit {
                    failure: Some(SqliteRuntimeError::driver("提交写事务", source, cancelled)),
                },
                TransactionState::RollingBack { cause } => TransactionState::Finished {
                    result: Err(rolled_back(cause, RollbackReply::Failed(source), cancelled)),
                },
                _ => unreached(),
            },
        }
    }

    fn counted(self, plan: &SqliteTransactionPlan, result: Result<usize, SqliteDriverError>, cancelled: bool) -> (next:
        Self)
        requires
            is_sound(plan.planned()),
            self.fits(plan.planned()),
            self.expects(plan.planned(), TransactionReply::Count(result)),
        ensures
            self.after_count(plan.planned(), result, cancelled, next),
            next.fits(plan.planned()),
    {
        proof {
            if let Some(step) = self.step() {
                sqlite_plan::lemma_plan_size(*plan);
                sqlite_plan::lemma_batch_sizes(batch_of(plan.planned()[step])->0);
            }
        }
        let steps = plan.steps();
        match self {
            TransactionState::Preparing { step } => match result {
                Err(source) => fail(
                    SqliteRuntimeError::driver(prepare_operation_text(&steps[step]), source, cancelled),
                ),
                Ok(expected) => match step_batch(&steps[step]) {
                    None => TransactionState::Running { step },
                    Some(batch) => {
                        let shared: usize = batch.shared_parameters().len();
                        if shared > expected {
                            miscount(bind_shared_operation_text(&steps[step]), shared, expected)
                        } else {
                            start_shared(plan, step, expected, 0)
                        }
                    },
                },
            },
            TransactionState::RunningRow { step, expected, row } => match result {
                Err(source) => fail(
                    SqliteRuntimeError::driver(run_operation_text(&steps[step]), source, cancelled),
                ),
                Ok(changed) => {
                    if let SqliteTransactionStep::ExecuteManyExactlyOne(_) = &steps[step] {
                        if changed != 1 {
                            return TransactionState::RollingBack {
                                cause: RollbackCause::Requirement,
                            };
                        }
                    }
                    start_row(plan, step, expected, row + 1)
                },
            },
            _ => unreached(),
        }
    }

    fn searched(self, plan: &SqliteTransactionPlan, result: Result<bool, SqliteDriverError>, cancelled: bool) -> (next:
        Self)
        requires
            is_sound(plan.planned()),
            self.fits(plan.planned()),
            self.expects(plan.planned(), TransactionReply::Found(result)),
        ensures
            self.after_search(plan.planned(), result, cancelled, next),
            next.fits(plan.planned()),
    {
        proof {
            if let Some(step) = self.step() {
                sqlite_plan::lemma_plan_size(*plan);
                sqlite_plan::lemma_batch_sizes(batch_of(plan.planned()[step])->0);
            }
        }
        let steps = plan.steps();
        match self {
            TransactionState::Running { step } => match result {
                Ok(true) => TransactionState::RollingBack { cause: RollbackCause::Requirement },
                Ok(false) => TransactionState::CheckingStep { step },
                Err(source) => fail(
                    SqliteRuntimeError::driver(run_operation_text(&steps[step]), source, cancelled),
                ),
            },
            TransactionState::RunningRow { step, expected, row } => match result {
                Ok(true) => TransactionState::RollingBack { cause: RollbackCause::Requirement },
                Ok(false) => start_row(plan, step, expected, row + 1),
                Err(source) => fail(
                    SqliteRuntimeError::driver(run_operation_text(&steps[step]), source, cancelled),
                ),
            },
            _ => unreached(),
        }
    }

    fn first_row_read(self, plan: &SqliteTransactionPlan, reply: FirstRowReply, cancelled: bool) -> (next:
        Self)
        requires
            is_sound(plan.planned()),
            self.fits(plan.planned()),
            self.expects(plan.planned(), TransactionReply::FirstRow(reply)),
        ensures
            self.after_first_row(plan.planned(), reply, cancelled, next),
            next.fits(plan.planned()),
    {
        let steps = plan.steps();
        match self {
            TransactionState::Running { step } => match reply {
                FirstRowReply::BindFailed(source) => fail(
                    SqliteRuntimeError::driver("绑定带诊断行的事务条件查询参数", source, cancelled),
                ),
                FirstRowReply::StepFailed(source) => fail(
                    SqliteRuntimeError::driver(run_operation_text(&steps[step]), source, cancelled),
                ),
                FirstRowReply::Absent => TransactionState::CheckingStep { step },
                FirstRowReply::Row(columns) => match own_sqlite_row(columns, cancelled) {
                    Err(error) => fail(error),
                    Ok(row) => match &steps[step] {
                        SqliteTransactionStep::RequireNoRowsReturningFirstRow(query) =>
                        TransactionState::RollingBack {
                            cause: RollbackCause::RequirementWithRow {
                                query_id: String::from_str(query.id()),
                                row,
                            },
                        },
                        _ => unreached(),
                    },
                },
            },
            _ => unreached(),
        }
    }

    fn limit_read(self, plan: &SqliteTransactionPlan, limit: Result<i32, SqliteDriverError>, cancelled: bool) -> (next:
        Self)
        requires
            is_sound(plan.planned()),
            self.fits(plan.planned()),
            self.expects(plan.planned(), TransactionReply::Limit(limit)),
        ensures
            self.after_limit(plan.planned(), limit, cancelled, next),
            next.fits(plan.planned()),
    {
        let steps = plan.steps();
        match self {
            TransactionState::ReadingVariableLimit { step } => match step_batch(&steps[step]) {
                Some(batch) => match batch.rows() {
                    SqliteBatchRows::Bulk { row_parameter_count, values } => {
                        assert(sqlite_plan::step_fault(steps@[step as int]) is None);
                        let limit: usize = match sqlite_variable_limit(limit, cancelled) {
                            Ok(limit) => limit,
                            Err(error) => {
                                return fail(error);
                            },
                        };
                        let shared: usize = batch.shared_parameters().len();
                        match BulkLayout::new(limit, shared, *row_parameter_count, values.len()) {
                            Ok(layout) => {
                                proof {
                                    vstd::arithmetic::div_mod::lemma_small_mod(0, *row_parameter_count as nat);
                                    assert(is_insert_place(steps@[step as int], layout, 0));
                                }
                                start_insert(plan, step, layout, 0)
                            },
                            Err(error) => fail(error),
                        }
                    },
                    SqliteBatchRows::Each(_) => unreached(),
                },
                None => unreached(),
            },
            _ => unreached(),
        }
    }

    fn autocommit_read(self, plan: &SqliteTransactionPlan, autocommit: bool, cancelled: bool) -> (next: Self)
        requires
            is_sound(plan.planned()),
            self.fits(plan.planned()),
            self.expects(plan.planned(), TransactionReply::Autocommit(autocommit)),
        ensures
            self.after_autocommit(plan.planned(), autocommit, cancelled, next),
            next.fits(plan.planned()),
    {
        proof {
            if let Some(step) = self.step() {
                sqlite_plan::lemma_plan_size(*plan);
                sqlite_plan::lemma_batch_sizes(batch_of(plan.planned()[step])->0);
            }
        }
        match self {
            TransactionState::CheckingStep { step } => {
                if autocommit {
                    TransactionState::Finished {
                        result: Err(
                            ExecuteTransactionError::OutcomeUnknown(
                                SqliteRuntimeError::Internal("事务步骤意外结束了根事务"),
                            ),
                        ),
                    }
                } else {
                    start_step(plan, step + 1)
                }
            },
            TransactionState::CheckingCommit { failure } => match failure {
                None => {
                    if autocommit {
                        TransactionState::Finished { result: Ok(()) }
                    } else {
                        TransactionState::Finished {
                            result: Err(
                                ExecuteTransactionError::OutcomeUnknown(
                                    SqliteRuntimeError::Internal("COMMIT 成功后连接仍非 autocommit"),
                                ),
                            ),
                        }
                    }
                },
                Some(error) => {
                    if autocommit {
                        TransactionState::Finished {
                            result: Err(ExecuteTransactionError::OutcomeUnknown(error)),
                        }
                    } else {
                        fail(error)
                    }
                },
            },
            TransactionState::CheckingRollback { cause } => TransactionState::Finished {
                result: Err(
                    rolled_back(cause, RollbackReply::Succeeded { autocommit }, cancelled),
                ),
            },
            _ => unreached(),
        }
    }
}

/// A transaction plan at work.
#[derive(Debug, PartialEq, Eq)]
pub struct TransactionRun<'a> {
    plan: &'a SqliteTransactionPlan,
    state: TransactionState,
}

/// Whether `request` is what a state asks the connection for.
pub open spec fn is_request(
    state: TransactionState,
    steps: Seq<SqliteTransactionStep>,
    request: TransactionRequest<'_>,
) -> bool {
    match state {
        TransactionState::Beginning => request == (TransactionRequest::Control {
            control: SqliteTransactionControl::Begin,
            statement: "BEGIN IMMEDIATE",
        }),
        TransactionState::Committing => request == (TransactionRequest::Control {
            control: SqliteTransactionControl::Commit,
            statement: "COMMIT",
        }),
        TransactionState::RollingBack { .. } => request == (TransactionRequest::Control {
            control: SqliteTransactionControl::Rollback,
            statement: "ROLLBACK",
        }),
        TransactionState::Preparing { step } => request matches TransactionRequest::Prepare { statement }
            && statement@ == sql_of(steps[step as int]),
        TransactionState::Running { step } => match steps[step as int] {
            SqliteTransactionStep::Execute(command) => request matches TransactionRequest::Execute {
                parameters,
            } && parameters@ == command.bound(),
            SqliteTransactionStep::RequireNoRows(query) => request matches TransactionRequest::Exists {
                parameters,
            } && parameters@ == query.bound(),
            SqliteTransactionStep::RequireNoRowsReturningFirstRow(query) => request matches
                TransactionRequest::FirstRow { parameters } && parameters@ == query.bound(),
            _ => false,
        },
        TransactionState::BindingShared { step, next, .. } => request matches TransactionRequest::Bind {
            index,
            value,
        } && index == next + 1 && *value == batch_of(steps[step as int])->0.shared()[next as int],
        TransactionState::BindingRow { step, row, next, .. } => {
            let batch = batch_of(steps[step as int])->0;
            &&& request matches TransactionRequest::Bind { index, value }
            &&& index == batch.shared().len() + next + 1
            &&& *value == rows_of(batch)[row as int]@[next as int]
        },
        TransactionState::RunningRow { step, .. } => request == (if steps[step as int]
            is RequireNoRowsMany {
            TransactionRequest::ExistsBound
        } else {
            TransactionRequest::ExecuteBound
        }),
        TransactionState::ReadingVariableLimit { .. } => request == TransactionRequest::VariableLimit,
        TransactionState::PreparingInsert { sql, .. } => request matches
            TransactionRequest::PrepareInsert { statement } && statement@ == sql@,
        TransactionState::RunningInsert { step, layout, start } => {
            let batch = batch_of(steps[step as int])->0;
            &&& request matches TransactionRequest::ExecuteInsert { shared, values, start: from, count }
            &&& shared@ == batch.shared()
            &&& bulk_values(batch) == Some(values@)
            &&& from == start
            &&& count == layout.end_of(start as int) - start
        },
        TransactionState::CheckingStep { .. } => request == TransactionRequest::Autocommit,
        TransactionState::CheckingCommit { .. } => request == TransactionRequest::Autocommit,
        TransactionState::CheckingRollback { .. } => request == TransactionRequest::Autocommit,
        TransactionState::Finished { .. } => request == TransactionRequest::Nothing,
    }
}

/// Checks a plan before anything is opened, and gets it ready to run.
pub fn run_transaction<'a>(plan: &'a SqliteTransactionPlan) -> (result: Result<
    TransactionRun<'a>,
    ExecuteTransactionError,
>)
    ensures
        match sqlite_plan::plan_fault(*plan) {
            Some(error) => result == Err::<TransactionRun<'a>, ExecuteTransactionError>(
                ExecuteTransactionError::NotCommitted(error),
            ),
            None => result matches Ok(run) && run.steps() == plan.planned() && run.at()
                == TransactionState::Beginning,
        },
{
    match validate_transaction_plan(plan) {
        Err(error) => Err(ExecuteTransactionError::NotCommitted(error)),
        Ok(()) => {
            proof {
                lemma_accepted_plan_is_sound(*plan);
            }
            Ok(TransactionRun { plan, state: TransactionState::Beginning })
        },
    }
}

/// The counters after a reply: only the answer to a control statement is counted.
pub open spec fn counts_after(
    before: RunPerformanceSnapshot,
    state: TransactionState,
    reply: TransactionReply,
) -> RunPerformanceSnapshot {
    match (state.control(), reply) {
        (Some(control), TransactionReply::Done(result)) => control_counted(
            before,
            SqliteTransactionScope::WritePlan,
            control,
            result is Ok,
        ),
        _ => before,
    }
}

impl<'a> TransactionRun<'a> {
    #[verifier::type_invariant]
    spec fn is_valid(&self) -> bool {
        is_sound(self.plan.planned()) && self.state.fits(self.plan.planned())
    }

    pub closed spec fn steps(&self) -> Seq<SqliteTransactionStep> {
        self.plan.planned()
    }

    pub closed spec fn at(&self) -> TransactionState {
        self.state
    }

    /// What to ask the connection for now.
    pub fn request(&self) -> (request: TransactionRequest<'_>)
        ensures
            is_request(self.at(), self.steps(), request),
    {
        proof {
            use_type_invariant(self);
            if let Some(step) = self.state.step() {
                sqlite_plan::lemma_batch_sizes(batch_of(self.plan.planned()[step])->0);
            }
        }
        let steps = self.plan.steps();
        match &self.state {
            TransactionState::Beginning => TransactionRequest::Control {
                control: SqliteTransactionControl::Begin,
                statement: "BEGIN IMMEDIATE",
            },
            TransactionState::Committing => TransactionRequest::Control {
                control: SqliteTransactionControl::Commit,
                statement: "COMMIT",
            },
            TransactionState::RollingBack { .. } => TransactionRequest::Control {
                control: SqliteTransactionControl::Rollback,
                statement: "ROLLBACK",
            },
            TransactionState::Preparing { step } => TransactionRequest::Prepare {
                statement: step_statement(&steps[*step]),
            },
            TransactionState::Running { step } => match &steps[*step] {
                SqliteTransactionStep::Execute(command) => TransactionRequest::Execute {
                    parameters: command.parameters(),
                },
                SqliteTransactionStep::RequireNoRows(query) => TransactionRequest::Exists {
                    parameters: query.parameters(),
                },
                SqliteTransactionStep::RequireNoRowsReturningFirstRow(query) =>
                TransactionRequest::FirstRow { parameters: query.parameters() },
                _ => unreached(),
            },
            TransactionState::BindingShared { step, next, .. } => match step_batch(&steps[*step]) {
                Some(batch) => TransactionRequest::Bind {
                    index: *next + 1,
                    value: &batch.shared_parameters()[*next],
                },
                None => unreached(),
            },
            TransactionState::BindingRow { step, row, next, .. } => match step_batch(&steps[*step]) {
                Some(batch) => match batch.rows() {
                    SqliteBatchRows::Each(rows) => TransactionRequest::Bind {
                        index: batch.shared_parameters().len() + *next + 1,
                        value: &rows[*row][*next],
                    },
                    SqliteBatchRows::Bulk { .. } => unreached(),
                },
                None => unreached(),
            },
            TransactionState::RunningRow { step, .. } => match &steps[*step] {
                SqliteTransactionStep::RequireNoRowsMany(_) => TransactionRequest::ExistsBound,
                _ => TransactionRequest::ExecuteBound,
            },
            TransactionState::ReadingVariableLimit { .. } => TransactionRequest::VariableLimit,
            TransactionState::PreparingInsert { sql, .. } => TransactionRequest::PrepareInsert {
                statement: sql.as_str(),
            },
            TransactionState::RunningInsert { step, layout, start } => match step_batch(
                &steps[*step],
            ) {
                Some(batch) => match batch.rows() {
                    SqliteBatchRows::Bulk { values, .. } => TransactionRequest::ExecuteInsert {
                        shared: batch.shared_parameters(),
                        values,
                        start: *start,
                        count: layout.count_from(*start),
                    },
                    SqliteBatchRows::Each(_) => unreached(),
                },
                None => unreached(),
            },
            TransactionState::CheckingStep { .. } => TransactionRequest::Autocommit,
            TransactionState::CheckingCommit { .. } => TransactionRequest::Autocommit,
            TransactionState::CheckingRollback { .. } => TransactionRequest::Autocommit,
            TransactionState::Finished { .. } => TransactionRequest::Nothing,
        }
    }

    /// Goes on with the connection's answer, and counts the control statements.
    pub fn advance(
        self,
        reply: TransactionReply,
        wait_cancelled: bool,
        performance: &mut RunPerformanceCounters,
    ) -> (next: Self)
        requires
            self.at().expects(self.steps(), reply),
        ensures
            next.steps() == self.steps(),
            self.at().leads_to(self.steps(), reply, wait_cancelled, next.at()),
            final(performance)@ == counts_after(old(performance)@, self.at(), reply),
    {
        proof {
            use_type_invariant(&self);
        }
        let plan = self.plan;
        let state = self.state;
        let next = match reply {
            TransactionReply::Done(result) => {
                let control = match &state {
                    TransactionState::Beginning => Some(SqliteTransactionControl::Begin),
                    TransactionState::Committing => Some(SqliteTransactionControl::Commit),
                    TransactionState::RollingBack { .. } => Some(SqliteTransactionControl::Rollback),
                    _ => None,
                };
                let result = match control {
                    Some(control) => execute_transaction_control(
                        performance,
                        SqliteTransactionScope::WritePlan,
                        control,
                        result,
                    ),
                    None => result,
                };
                state.done(plan, result, wait_cancelled)
            },
            TransactionReply::Count(result) => state.counted(plan, result, wait_cancelled),
            TransactionReply::Found(result) => state.searched(plan, result, wait_cancelled),
            TransactionReply::FirstRow(row) => state.first_row_read(plan, row, wait_cancelled),
            TransactionReply::Limit(limit) => state.limit_read(plan, limit, wait_cancelled),
            TransactionReply::Autocommit(autocommit) => state.autocommit_read(
                plan,
                autocommit,
                wait_cancelled,
            ),
        };
        TransactionRun { plan, state: next }
    }

    /// How the transaction ended.
    pub fn into_result(self) -> (result: Result<(), ExecuteTransactionError>)
        requires
            self.at() is Finished,
        ensures
            self.at() == (TransactionState::Finished { result }),
    {
        match self.state {
            TransactionState::Finished { result } => result,
            _ => unreached(),
        }
    }
}

/// What a transaction reports when its database cannot be opened.
pub fn open_transaction_connection(path: &str, error: ExistingFileErrorOrRuntime) -> (mapped:
    ExecuteTransactionError)
    ensures
        match mapped {
            ExecuteTransactionError::NotFound => sqlite_open::open_problem(path@, error, None),
            ExecuteTransactionError::NotCommitted(source) => sqlite_open::open_problem(
                path@,
                error,
                Some(source),
            ),
            _ => false,
        },
{
    match told_open_problem(path, error) {
        None => ExecuteTransactionError::NotFound,
        Some(source) => ExecuteTransactionError::NotCommitted(source),
    }
}

/// The same failure, told of a final transaction.
pub open spec fn as_final(error: ExecuteTransactionError) -> ExecuteFinalTransactionError {
    match error {
        ExecuteTransactionError::NotFound => ExecuteFinalTransactionError::NotFound,
        ExecuteTransactionError::RequirementFailed => ExecuteFinalTransactionError::RequirementFailed,
        ExecuteTransactionError::RequirementFailedWithRow { query_id, row } =>
        ExecuteFinalTransactionError::RequirementFailedWithRow { query_id, row },
        ExecuteTransactionError::RequirementFailedWithRowOutcomeUnknown { query_id, row, source } =>
        ExecuteFinalTransactionError::RequirementFailedWithRowOutcomeUnknown {
            query_id,
            row,
            source,
        },
        ExecuteTransactionError::NotCommitted(source) => ExecuteFinalTransactionError::NotCommitted(
            source,
        ),
        ExecuteTransactionError::OutcomeUnknown(source) => ExecuteFinalTransactionError::OutcomeUnknown(
            source,
        ),
    }
}

pub fn map_final_transaction_error(error: ExecuteTransactionError) -> (mapped:
    ExecuteFinalTransactionError)
    ensures
        mapped == as_final(error),
{
    match error {
        ExecuteTransactionError::NotFound => ExecuteFinalTransactionError::NotFound,
        ExecuteTransactionError::RequirementFailed => ExecuteFinalTransactionError::RequirementFailed,
        ExecuteTransactionError::RequirementFailedWithRow { query_id, row } =>
        ExecuteFinalTransactionError::RequirementFailedWithRow { query_id, row },
        ExecuteTransactionError::RequirementFailedWithRowOutcomeUnknown { query_id, row, source } =>
        ExecuteFinalTransactionError::RequirementFailedWithRowOutcomeUnknown {
            query_id,
            row,
            source,
        },
        ExecuteTransactionError::NotCommitted(source) => ExecuteFinalTransactionError::NotCommitted(
            source,
        ),
        ExecuteTransactionError::OutcomeUnknown(source) => ExecuteFinalTransactionError::OutcomeUnknown(
            source,
        ),
    }
}

/// How a transaction ends whose connection could not be closed with `close`.
pub open spec fn is_unclosed(
    transaction: Result<(), ExecuteTransactionError>,
    close: SqliteRuntimeError,
    error: ExecuteFinalTransactionError,
) -> bool {
    match transaction {
        Ok(()) => error == ExecuteFinalTransactionError::CommittedButFinalizationFailed(close),
        Err(ExecuteTransactionError::NotFound) => error matches
            ExecuteFinalTransactionError::OutcomeUnknown(source) && source.is_followed_by(
            SqliteRuntimeError::Internal("连接打开后的事务意外返回 NotFound"),
            close,
        ),
        Err(ExecuteTransactionError::RequirementFailed) => error matches
            ExecuteFinalTransactionError::NotCommitted(source) && source.is_followed_by(
            SqliteRuntimeError::Internal("事务条件未满足并已确认回滚"),
            close,
        ),
        Err(ExecuteTransactionError::RequirementFailedWithRow { query_id, row }) => error == (
        ExecuteFinalTransactionError::RequirementFailedWithRowAndFinalizationFailed {
            query_id,
            row,
            source: Box::new(close),
        }),
        Err(
            ExecuteTransactionError::RequirementFailedWithRowOutcomeUnknown { query_id, row, source },
        ) => {
            &&& error matches ExecuteFinalTransactionError::RequirementFailedWithRowOutcomeUnknown {
                query_id: q,
                row: r,
                source: both,
            }
            &&& q == query_id
            &&& r == row
            &&& both.is_followed_by(*source, close)
        },
        Err(ExecuteTransactionError::NotCommitted(primary)) => error matches
            ExecuteFinalTransactionError::NotCommitted(source) && source.is_followed_by(primary, close),
        Err(ExecuteTransactionError::OutcomeUnknown(primary)) => error matches
            ExecuteFinalTransactionError::OutcomeUnknown(source) && source.is_followed_by(
            primary,
            close,
        ),
    }
}

/// A transaction and the closing of its connection, told together.
pub fn run_final_transaction(
    transaction: Result<(), ExecuteTransactionError>,
    close: Result<(), SqliteDriverError>,
    wait_cancelled: bool,
) -> (result: Result<(), ExecuteFinalTransactionError>)
    ensures
        match close {
            Ok(()) => match transaction {
                Ok(()) => result == Ok::<(), ExecuteFinalTransactionError>(()),
                Err(error) => result == Err::<(), ExecuteFinalTransactionError>(as_final(error)),
            },
            Err(source) => result matches Err(error) && is_unclosed(
                transaction,
                SqliteRuntimeError::of_driver("关闭最终事务连接", source, wait_cancelled),
                error,
            ),
        },
{
    let close = match close {
        Ok(()) => {
            return match transaction {
                Ok(()) => Ok(()),
                Err(error) => Err(map_final_transaction_error(error)),
            };
        },
        Err(source) => SqliteRuntimeError::driver("关闭最终事务连接", source, wait_cancelled),
    };
    Err(
        match transaction {
            Ok(()) => ExecuteFinalTransactionError::CommittedButFinalizationFailed(close),
            Err(ExecuteTransactionError::NotFound) => ExecuteFinalTransactionError::OutcomeUnknown(
                SqliteRuntimeError::with_failure(
                    SqliteRuntimeError::Internal("连接打开后的事务意外返回 NotFound"),
                    close,
                ),
            ),
            Err(ExecuteTransactionError::RequirementFailed) => ExecuteFinalTransactionError::NotCommitted(
                SqliteRuntimeError::with_failure(
                    SqliteRuntimeError::Internal("事务条件未满足并已确认回滚"),
                    close,
                ),
            ),
            Err(ExecuteTransactionError::RequirementFailedWithRow { query_id, row }) =>
            ExecuteFinalTransactionError::RequirementFailedWithRowAndFinalizationFailed {
                query_id,
                row,
                source: Box::new(close),
            },
            Err(
                ExecuteTransactionError::RequirementFailedWithRowOutcomeUnknown { query_id, row, source },
            ) => ExecuteFinalTransactionError::RequirementFailedWithRowOutcomeUnknown {
                query_id,
                row,
                source: Box::new(SqliteRuntimeError::with_failure(*source, close)),
            },
            Err(ExecuteTransactionError::NotCommitted(primary)) => ExecuteFinalTransactionError::NotCommitted(
                SqliteRuntimeError::with_failure(primary, close),
            ),
            Err(ExecuteTransactionError::OutcomeUnknown(primary)) =>
            ExecuteFinalTransactionError::OutcomeUnknown(
                SqliteRuntimeError::with_failure(primary, close),
            ),
        },
    )
}

} // verus!
