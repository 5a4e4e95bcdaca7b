//! Values, statements and transaction plans for SQLite, and when they are acceptable.

use vstd::prelude::*;
use crate::search;
use crate::sqlite_error::SqliteRuntimeError;
use crate::text::characters;
use crate::vectors::in_reverse;

verus! {

/// A value that SQLite stores. A real number is given by its binary64 bits.
#[derive(Debug, PartialEq, Eq)]
pub enum SqliteValue {
    Null,
    Integer(i64),
    Real(u64),
    Text(String),
    Blob(Vec<u8>),
}

impl SqliteValue {
    /// Whether the value may be a parameter: a real number must be finite, which it is
    /// unless its exponent is all ones.
    pub open spec fn is_storable(&self) -> bool {
        self matches SqliteValue::Real(bits) ==> (bits / 0x10_0000_0000_0000) % 0x800 != 0x7ff
    }
}

/// A row of a query's result.
#[derive(Debug, PartialEq, Eq)]
pub struct SqliteRow {
    values: Vec<SqliteValue>,
}

impl SqliteRow {
    pub closed spec fn columns(&self) -> Seq<SqliteValue> {
        self.values@
    }

    pub fn new(values: Vec<SqliteValue>) -> (row: Self)
        ensures
            row.columns() == values@,
    {
        SqliteRow { values }
    }

    pub fn values(&self) -> (values: &Vec<SqliteValue>)
        ensures
            values@ == self.columns(),
    {
        &self.values
    }
}

/// A statement that returns nothing.
#[derive(Debug, PartialEq, Eq)]
pub struct SqliteCommand {
    statement: String,
    parameters: Vec<SqliteValue>,
}

impl SqliteCommand {
    pub closed spec fn sql(&self) -> Seq<char> {
        self.statement@
    }

    pub closed spec fn bound(&self) -> Seq<SqliteValue> {
        self.parameters@
    }

    pub fn new(statement: String, parameters: Vec<SqliteValue>) -> (command: Self)
        ensures
            command.sql() == statement@,
            command.bound() == parameters@,
    {
        SqliteCommand { statement, parameters }
    }

    pub fn statement(&self) -> (statement: &str)
        ensures
            statement@ == self.sql(),
    {
        self.statement.as_str()
    }

    pub fn parameters(&self) -> (parameters: &Vec<SqliteValue>)
        ensures
            parameters@ == self.bound(),
    {
        &self.parameters
    }
}

/// A statement that returns rows, with a name for diagnostics.
#[derive(Debug, PartialEq, Eq)]
pub struct SqliteQuery {
    id: String,
    statement: String,
    parameters: Vec<SqliteValue>,
}

impl SqliteQuery {
    pub closed spec fn named(&self) -> Seq<char> {
        self.id@
    }

    pub closed spec fn sql(&self) -> Seq<char> {
        self.statement@
    }

    pub closed spec fn bound(&self) -> Seq<SqliteValue> {
        self.parameters@
    }

    /// A query without a name.
    pub fn new(statement: String, parameters: Vec<SqliteValue>) -> (query: Self)
        ensures
            query.named().len() == 0,
            query.sql() == statement@,
            query.bound() == parameters@,
    {
        SqliteQuery { id: String::new(), statement, parameters }
    }

    pub fn with_id(self, id: String) -> (query: Self)
        ensures
            query.named() == id@,
            query.sql() == self.sql(),
            query.bound() == self.bound(),
    {
        SqliteQuery { id, statement: self.statement, parameters: self.parameters }
    }

    pub fn id(&self) -> (id: &str)
        ensures
            id@ == self.named(),
    {
        self.id.as_str()
    }

    pub fn statement(&self) -> (statement: &str)
        ensures
            statement@ == self.sql(),
    {
        self.statement.as_str()
    }

    pub fn parameters(&self) -> (parameters: &Vec<SqliteValue>)
        ensures
            parameters@ == self.bound(),
    {
        &self.parameters
    }
}

/// Rows for one statement: either row by row, or many rows per INSERT.
#[derive(Debug, PartialEq, Eq)]
pub enum SqliteBatchRows {
    Each(Vec<Vec<SqliteValue>>),
    Bulk { row_parameter_count: usize, values: Vec<SqliteValue> },
}

/// One statement for many rows, with parameters that all rows share.
#[derive(Debug, PartialEq, Eq)]
pub struct SqliteBatch {
    statement: String,
    shared_parameters: Vec<SqliteValue>,
    rows: SqliteBatchRows,
}

impl SqliteBatch {
    pub closed spec fn sql(&self) -> Seq<char> {
        self.statement@
    }

    pub closed spec fn shared(&self) -> Seq<SqliteValue> {
        self.shared_parameters@
    }

    pub closed spec fn listed(&self) -> SqliteBatchRows {
        self.rows
    }

    /// A batch that runs the statement once per row.
    pub fn new(statement: String, parameter_rows: Vec<Vec<SqliteValue>>) -> (batch: Self)
        ensures
            batch.sql() == statement@,
            batch.shared().len() == 0,
            batch.listed() == SqliteBatchRows::Each(parameter_rows),
    {
        SqliteBatch {
            statement,
            shared_parameters: Vec::new(),
            rows: SqliteBatchRows::Each(parameter_rows),
        }
    }

    /// The same batch with these parameters before those of each row.
    pub fn with_shared_parameters(self, shared_parameters: Vec<SqliteValue>) -> (batch: Self)
        ensures
            batch.sql() == self.sql(),
            batch.shared() == shared_parameters@,
            batch.listed() == self.listed(),
    {
        SqliteBatch { statement: self.statement, shared_parameters, rows: self.rows }
    }

    /// A batch that inserts many rows per statement. The rows' values follow one another.
    pub fn bulk_insert_flat(
        statement_prefix: String,
        row_parameter_count: usize,
        shared_parameters: Vec<SqliteValue>,
        values: Vec<SqliteValue>,
    ) -> (batch: Self)
        ensures
            batch.sql() == statement_prefix@,
            batch.shared() == shared_parameters@,
            batch.listed() == (SqliteBatchRows::Bulk { row_parameter_count, values }),
    {
        SqliteBatch {
            statement: statement_prefix,
            shared_parameters,
            rows: SqliteBatchRows::Bulk { row_parameter_count, values },
        }
    }

    /// A batch that inserts many rows per statement.
    pub fn bulk_insert(
        statement_prefix: String,
        row_parameter_count: usize,
        shared_parameters: Vec<SqliteValue>,
        rows: Vec<Vec<SqliteValue>>,
    ) -> (batch: Self)
        ensures
            batch.sql() == statement_prefix@,
            batch.shared() == shared_parameters@,
            batch.listed() matches SqliteBatchRows::Bulk { row_parameter_count: width, values } && width
                == row_parameter_count && values@ == in_a_row(rows@),
    {
        Self::bulk_insert_flat(
            statement_prefix,
            row_parameter_count,
            shared_parameters,
            flattened(rows),
        )
    }

    pub fn statement(&self) -> (statement: &str)
        ensures
            statement@ == self.sql(),
    {
        self.statement.as_str()
    }

    pub fn shared_parameters(&self) -> (parameters: &Vec<SqliteValue>)
        ensures
            parameters@ == self.shared(),
    {
        &self.shared_parameters
    }

    pub fn rows(&self) -> (rows: &SqliteBatchRows)
        ensures
            *rows == self.listed(),
    {
        &self.rows
    }
}

/// The rows' values one after another.
pub open spec fn in_a_row(rows: Seq<Vec<SqliteValue>>) -> Seq<SqliteValue>
    decreases rows.len(),
{
    if rows.len() == 0 {
        Seq::empty()
    } else {
        in_a_row(rows.drop_last()) + rows.last()@
    }
}

fn flattened(rows: Vec<Vec<SqliteValue>>) -> (values: Vec<SqliteValue>)
    ensures
        values@ == in_a_row(rows@),
{
    let ghost all = rows@;
    let mut waiting = in_reverse(rows);
    let mut values: Vec<SqliteValue> = Vec::new();
    assert(all.take(0).len() == 0);
    while waiting.len() > 0
        invariant
            waiting.len() <= all.len(),
            forall|k: int|
                0 <= k < waiting.len() ==> (#[trigger] waiting@[k]) == all[all.len() - 1 - k],
            values@ == in_a_row(all.take(all.len() - waiting.len())),
        decreases waiting.len(),
    {
        let ghost done = all.len() - waiting.len();
        if let Some(row) = waiting.pop() {
            let mut row = row;
            values.append(&mut row);
            proof {
                assert(all.take(done + 1).drop_last() =~= all.take(done));
                assert(all.take(done + 1).last() == all[done]);
            }
        }
    }
    assert(all.take(all.len() as int) =~= all);
    values
}

/// One step of a transaction.
#[derive(Debug, PartialEq, Eq)]
pub enum SqliteTransactionStep {
    Execute(SqliteCommand),
    ExecuteMany(SqliteBatch),
    /// Every row must change exactly one row of the database.
    ExecuteManyExactlyOne(SqliteBatch),
    RequireNoRows(SqliteQuery),
    /// As before; the first row that is found goes into the failure.
    RequireNoRowsReturningFirstRow(SqliteQuery),
    RequireNoRowsMany(SqliteBatch),
}

/// The steps of one transaction, in order.
#[derive(Debug, PartialEq, Eq)]
pub struct SqliteTransactionPlan {
    steps: Vec<SqliteTransactionStep>,
}

impl SqliteTransactionPlan {
    pub closed spec fn planned(&self) -> Seq<SqliteTransactionStep> {
        self.steps@
    }

    pub fn new(steps: Vec<SqliteTransactionStep>) -> (plan: Self)
        ensures
            plan.planned() == steps@,
    {
        SqliteTransactionPlan { steps }
    }

    pub fn steps(&self) -> (steps: &Vec<SqliteTransactionStep>)
        ensures
            steps@ == self.planned(),
    {
        &self.steps
    }
}

/// The characters that Unicode counts as white space.
pub open spec fn is_white_space(c: char) -> bool {
    ||| '\u{9}' <= c <= '\u{d}'
    ||| c == ' '
    ||| c == '\u{85}'
    ||| c == '\u{a0}'
    ||| c == '\u{1680}'
    ||| '\u{2000}' <= c <= '\u{200a}'
    ||| c == '\u{2028}'
    ||| c == '\u{2029}'
    ||| c == '\u{202f}'
    ||| c == '\u{205f}'
    ||| c == '\u{3000}'
}

/// Whether the text holds nothing but white space.
pub open spec fn is_blank(text: Seq<char>) -> bool {
    forall|i: int| 0 <= i < text.len() ==> is_white_space(#[trigger] text[i])
}

fn white_space(c: char) -> (result: bool)
    ensures
        result == is_white_space(c),
{
    ('\u{9}' <= c && c <= '\u{d}') || c == ' ' || c == '\u{85}' || c == '\u{a0}' || c == '\u{1680}' || (
    '\u{2000}' <= c && c <= '\u{200a}') || c == '\u{2028}' || c == '\u{2029}' || c == '\u{202f}' || c
        == '\u{205f}' || c == '\u{3000}'
}

/// Accepts a statement that is not blank.
pub fn validate_statement(statement: &str) -> (result: Result<(), SqliteRuntimeError>)
    ensures
        result == (if is_blank(statement@) {
            Err(SqliteRuntimeError::InvalidValue("statement 不得为空"))
        } else {
            Ok(())
        }),
{
    let chars = characters(statement);
    let mut i: usize = 0;
    while i < chars.len()
        invariant
            i <= chars.len(),
            chars@ == statement@,
            forall|k: int| 0 <= k < i ==> is_white_space(#[trigger] chars@[k]),
        decreases chars.len() - i,
    {
        if !white_space(chars[i]) {
            assert(!is_white_space(statement@[i as int]));
            return Ok(());
        }
        i += 1;
    }
    Err(SqliteRuntimeError::InvalidValue("statement 不得为空"))
}

/// The refusal of a value that cannot be a parameter.
pub open spec fn unstorable() -> SqliteRuntimeError {
    SqliteRuntimeError::InvalidValue("REAL 参数必须是有限数值")
}

/// Accepts a value that may be a parameter.
pub fn validate_sqlite_value(value: &SqliteValue) -> (result: Result<(), SqliteRuntimeError>)
    ensures
        result == (if value.is_storable() {
            Ok(())
        } else {
            Err(unstorable())
        }),
{
    match value {
        SqliteValue::Null | SqliteValue::Integer(_) | SqliteValue::Text(_) | SqliteValue::Blob(_) => Ok(
            (),
        ),
        SqliteValue::Real(bits) => {
            if (*bits / 0x10_0000_0000_0000) % 0x800 == 0x7ff {
                Err(SqliteRuntimeError::InvalidValue("REAL 参数必须是有限数值"))
            } else {
                Ok(())
            }
        },
    }
}

pub open spec fn all_storable(parameters: Seq<SqliteValue>) -> bool {
    forall|i: int| 0 <= i < parameters.len() ==> (#[trigger] parameters[i]).is_storable()
}

/// Accepts values that may all be parameters.
pub fn validate_parameters(parameters: &Vec<SqliteValue>) -> (result: Result<(), SqliteRuntimeError>)
    ensures
        result == (if all_storable(parameters@) {
            Ok(())
        } else {
            Err(unstorable())
        }),
{
    let mut i: usize = 0;
    while i < parameters.len()
        invariant
            i <= parameters.len(),
            forall|k: int| 0 <= k < i ==> (#[trigger] parameters@[k]).is_storable(),
        decreases parameters.len() - i,
    {
        if let Err(error) = validate_sqlite_value(&parameters[i]) {
            assert(!parameters@[i as int].is_storable());
            return Err(error);
        }
        i += 1;
    }
    Ok(())
}

/// Why a statement with parameters is refused.
pub open spec fn statement_fault(sql: Seq<char>, parameters: Seq<SqliteValue>) -> Option<
    SqliteRuntimeError,
> {
    if is_blank(sql) {
        Some(SqliteRuntimeError::InvalidValue("statement 不得为空"))
    } else if !all_storable(parameters) {
        Some(unstorable())
    } else {
        None
    }
}

pub open spec fn accepted(fault: Option<SqliteRuntimeError>) -> Result<(), SqliteRuntimeError> {
    match fault {
        Some(error) => Err(error),
        None => Ok(()),
    }
}

pub fn validate_command(command: &SqliteCommand) -> (result: Result<(), SqliteRuntimeError>)
    ensures
        result == accepted(statement_fault(command.sql(), command.bound())),
{
    if let Err(error) = validate_statement(command.statement()) {
        return Err(error);
    }
    validate_parameters(command.parameters())
}

pub fn validate_query(query: &SqliteQuery) -> (result: Result<(), SqliteRuntimeError>)
    ensures
        result == accepted(statement_fault(query.sql(), query.bound())),
{
    if let Err(error) = validate_statement(query.statement()) {
        return Err(error);
    }
    validate_parameters(query.parameters())
}

/// The queries that are refused.
pub open spec fn faulty_queries(queries: Seq<SqliteQuery>) -> spec_fn(int) -> bool {
    |i: int| statement_fault(queries[i].sql(), queries[i].bound()) is Some
}

/// Why a set of queries cannot be read as one snapshot: it is empty, or a query is refused.
pub open spec fn snapshot_fault(queries: Seq<SqliteQuery>) -> Option<SqliteRuntimeError> {
    if queries.len() == 0 {
        Some(SqliteRuntimeError::InvalidValue("只读快照查询集合不得为空"))
    } else {
        match search::first_such(faulty_queries(queries), 0, queries.len() as int) {
            Some(i) => statement_fault(queries[i].sql(), queries[i].bound()),
            None => None,
        }
    }
}

pub fn validate_query_snapshot(queries: &Vec<SqliteQuery>) -> (result: Result<(), SqliteRuntimeError>)
    ensures
        result == accepted(snapshot_fault(queries@)),
{
    if queries.len() == 0 {
        return Err(SqliteRuntimeError::InvalidValue("只读快照查询集合不得为空"));
    }
    let ghost faulty = faulty_queries(queries@);
    let mut i: usize = 0;
    while i < queries.len()
        invariant
            i <= queries.len(),
            queries.len() > 0,
            faulty == faulty_queries(queries@),
            forall|k: int| 0 <= k < i ==> !#[trigger] faulty(k),
        decreases queries.len() - i,
    {
        if let Err(error) = validate_query(&queries[i]) {
            proof {
                assert(faulty(i as int));
                search::lemma_first_found(faulty, 0, queries.len() as int, i as int);
            }
            return Err(error);
        }
        assert(!faulty(i as int));
        i += 1;
    }
    proof {
        search::lemma_first_absent(faulty, 0, queries.len() as int);
    }
    Ok(())
}

/// Whether all values of all rows may be parameters.
pub open spec fn rows_storable(rows: Seq<Vec<SqliteValue>>) -> bool {
    forall|i: int| 0 <= i < rows.len() ==> all_storable((#[trigger] rows[i])@)
}

/// Why a batch is refused.
pub open spec fn batch_fault(batch: SqliteBatch) -> Option<SqliteRuntimeError> {
    match statement_fault(batch.sql(), batch.shared()) {
        Some(error) => Some(error),
        None => match batch.listed() {
            SqliteBatchRows::Bulk { row_parameter_count, values } => if row_parameter_count == 0 {
                Some(SqliteRuntimeError::Internal("bulk INSERT 每行参数数量不得为零"))
            } else if batch.shared().len() + row_parameter_count > usize::MAX {
                Some(SqliteRuntimeError::Internal("bulk INSERT 单行参数数量溢出"))
            } else if values@.len() % (row_parameter_count as nat) != 0 {
                Some(SqliteRuntimeError::Internal("bulk INSERT 扁平参数无法整除为完整行"))
            } else if !all_storable(values@) {
                Some(unstorable())
            } else {
                None
            },
            SqliteBatchRows::Each(rows) => if rows_storable(rows@) {
                None
            } else {
                Some(unstorable())
            },
        },
    }
}

pub fn validate_batch(batch: &SqliteBatch) -> (result: Result<(), SqliteRuntimeError>)
    ensures
        result == accepted(batch_fault(*batch)),
{
    if let Err(error) = validate_statement(batch.statement()) {
        return Err(error);
    }
    if let Err(error) = validate_parameters(batch.shared_parameters()) {
        return Err(error);
    }
    match batch.rows() {
        SqliteBatchRows::Bulk { row_parameter_count, values } => {
            let width: usize = *row_parameter_count;
            if width == 0 {
                return Err(SqliteRuntimeError::Internal("bulk INSERT 每行参数数量不得为零"));
            }
            if batch.shared_parameters().len().checked_add(width).is_none() {
                return Err(SqliteRuntimeError::Internal("bulk INSERT 单行参数数量溢出"));
            }
            if values.len() % width != 0 {
                return Err(
                    SqliteRuntimeError::Internal("bulk INSERT 扁平参数无法整除为完整行"),
                );
            }
            validate_parameters(values)
        },
        SqliteBatchRows::Each(rows) => {
            let mut i: usize = 0;
            while i < rows.len()
                invariant
                    i <= rows.len(),
                    batch.listed() == SqliteBatchRows::Each(*rows),
                    statement_fault(batch.sql(), batch.shared()) is None,
                    forall|k: int| 0 <= k < i ==> all_storable((#[trigger] rows@[k])@),
                decreases rows.len() - i,
            {
                if let Err(error) = validate_parameters(&rows[i]) {
                    assert(!rows_storable(rows@)) by {
                        assert(!all_storable(rows@[i as int]@));
                    }
                    return Err(error);
                }
                i += 1;
            }
            assert(rows_storable(rows@));
            Ok(())
        },
    }
}

/// Why a batch that must run row by row is refused.
pub open spec fn plain_batch_fault(batch: SqliteBatch, unsupported: &'static str) -> Option<
    SqliteRuntimeError,
> {
    match batch_fault(batch) {
        Some(error) => Some(error),
        None => if batch.listed() is Bulk {
            Some(SqliteRuntimeError::Internal(unsupported))
        } else {
            None
        },
    }
}

pub fn validate_non_bulk_batch(batch: &SqliteBatch, unsupported_reason: &'static str) -> (result: Result<
    (),
    SqliteRuntimeError,
>)
    ensures
        result == accepted(plain_batch_fault(*batch, unsupported_reason)),
{
    if let Err(error) = validate_batch(batch) {
        return Err(error);
    }
    match batch.rows() {
        SqliteBatchRows::Bulk { .. } => Err(SqliteRuntimeError::Internal(unsupported_reason)),
        SqliteBatchRows::Each(_) => Ok(()),
    }
}

/// Why a step is refused.
pub open spec fn step_fault(step: SqliteTransactionStep) -> Option<SqliteRuntimeError> {
    match step {
        SqliteTransactionStep::Execute(command) => statement_fault(command.sql(), command.bound()),
        SqliteTransactionStep::ExecuteMany(batch) => batch_fault(batch),
        SqliteTransactionStep::ExecuteManyExactlyOne(batch) => plain_batch_fault(
            batch,
            "bulk INSERT 不支持 ExactlyOne 语义",
        ),
        SqliteTransactionStep::RequireNoRowsMany(batch) => plain_batch_fault(
            batch,
            "bulk INSERT 不支持 Require 语义",
        ),
        SqliteTransactionStep::RequireNoRows(query) => statement_fault(query.sql(), query.bound()),
        SqliteTransactionStep::RequireNoRowsReturningFirstRow(query) => statement_fault(
            query.sql(),
            query.bound(),
        ),
    }
}

fn validate_step(step: &SqliteTransactionStep) -> (result: Result<(), SqliteRuntimeError>)
    ensures
        result == accepted(step_fault(*step)),
{
    match step {
        SqliteTransactionStep::Execute(command) => validate_command(command),
        SqliteTransactionStep::ExecuteMany(batch) => validate_batch(batch),
        SqliteTransactionStep::ExecuteManyExactlyOne(batch) => validate_non_bulk_batch(
            batch,
            "bulk INSERT 不支持 ExactlyOne 语义",
        ),
        SqliteTransactionStep::RequireNoRowsMany(batch) => validate_non_bulk_batch(
            batch,
            "bulk INSERT 不支持 Require 语义",
        ),
        SqliteTransactionStep::RequireNoRows(query) => validate_query(query),
        SqliteTransactionStep::RequireNoRowsReturningFirstRow(query) => validate_query(query),
    }
}

/// The steps that are refused.
pub open spec fn faulty_steps(steps: Seq<SqliteTransactionStep>) -> spec_fn(int) -> bool {
    |i: int| step_fault(steps[i]) is Some
}

/// Why a plan is refused: its first faulty step.
pub open spec fn plan_fault(plan: SqliteTransactionPlan) -> Option<SqliteRuntimeError> {
    match search::first_such(faulty_steps(plan.planned()), 0, plan.planned().len() as int) {
        Some(i) => step_fault(plan.planned()[i]),
        None => None,
    }
}

pub fn validate_transaction_plan(plan: &SqliteTransactionPlan) -> (result: Result<
    (),
    SqliteRuntimeError,
>)
    ensures
        result == accepted(plan_fault(*plan)),
{
    let steps = plan.steps();
    let ghost faulty = faulty_steps(steps@);
    let mut i: usize = 0;
    while i < steps.len()
        invariant
            i <= steps.len(),
            steps@ == plan.planned(),
            faulty == faulty_steps(steps@),
            forall|k: int| 0 <= k < i ==> !#[trigger] faulty(k),
        decreases steps.len() - i,
    {
        if let Err(error) = validate_step(&steps[i]) {
            proof {
                assert(faulty(i as int));
                search::lemma_first_found(faulty, 0, steps.len() as int, i as int);
            }
            return Err(error);
        }
        assert(!faulty(i as int));
        i += 1;
    }
    proof {
        search::lemma_first_absent(faulty, 0, steps.len() as int);
    }
    Ok(())
}

/// The steps of a plan can be counted.
pub proof fn lemma_plan_size(plan: SqliteTransactionPlan)
    ensures
        plan.planned().len() <= usize::MAX,
{
    assert(plan.steps.len() == plan.steps@.len());
}

/// The lists of a batch can be counted.
pub proof fn lemma_batch_sizes(batch: SqliteBatch)
    ensures
        batch.shared().len() <= usize::MAX,
        match batch.listed() {
            SqliteBatchRows::Each(rows) => rows@.len() <= usize::MAX && forall|i: int|
                0 <= i < rows@.len() ==> (#[trigger] rows@[i])@.len() <= usize::MAX,
            SqliteBatchRows::Bulk { values, .. } => values@.len() <= usize::MAX,
        },
{
    assert(batch.shared_parameters.len() == batch.shared_parameters@.len());
    match batch.rows {
        SqliteBatchRows::Each(rows) => {
            assert(rows.len() == rows@.len());
            assert forall|i: int| 0 <= i < rows@.len() implies (#[trigger] rows@[i])@.len()
                <= usize::MAX by {
                assert(rows@[i].len() == rows@[i]@.len());
            }
        },
        SqliteBatchRows::Bulk { values, .. } => {
            assert(values.len() == values@.len());
        },
    }
}

} // verus!
