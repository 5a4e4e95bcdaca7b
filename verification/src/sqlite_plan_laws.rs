//! What holds of every plan, and of the counters of a run.

use vstd::prelude::*;
use crate::performance;
use crate::performance::{
    RunPerformanceSnapshot, SqliteControlCounts, SqliteTransactionControl, SqliteTransactionScope,
};
use crate::search;
use crate::sqlite_error::SqliteRuntimeError;
use crate::sqlite_plan;
use crate::sqlite_plan::{
    SqliteBatch, SqliteBatchRows, SqliteQuery, SqliteTransactionPlan, SqliteTransactionStep,
    SqliteValue,
};

verus! {

/// Whether the bits of a real number are those of a finite one: without its sign, it is
/// smaller than infinity.
pub open spec fn is_finite(bits: u64) -> bool {
    bits % 0x8000_0000_0000_0000 < 0x7ff0_0000_0000_0000
}

/// Whether none of the values is an infinite number or none at all.
pub open spec fn are_finite(values: Seq<SqliteValue>) -> bool {
    forall|i: int|
        0 <= i < values.len() ==> ((#[trigger] values[i]) matches SqliteValue::Real(bits) ==> is_finite(
            bits,
        ))
}

/// Whether some character of the text can be seen.
pub open spec fn can_be_seen(text: Seq<char>) -> bool {
    exists|i: int|
        {
            let code = #[trigger] text[i] as int;
            &&& 0 <= i < text.len()
            &&& !(0x9 <= code <= 0xd)
            &&& code != 0x20
            &&& code != 0x85
            &&& code != 0xa0
            &&& code != 0x1680
            &&& !(0x2000 <= code <= 0x200a)
            &&& code != 0x2028
            &&& code != 0x2029
            &&& code != 0x202f
            &&& code != 0x205f
            &&& code != 0x3000
        }
}

/// Whether a batch can be run: its statement says something, its numbers are finite, and the
/// values of a bulk batch make up whole rows.
pub open spec fn can_be_run(batch: SqliteBatch) -> bool {
    &&& can_be_seen(batch.sql())
    &&& are_finite(batch.shared())
    &&& match batch.listed() {
        SqliteBatchRows::Each(rows) => forall|i: int|
            0 <= i < rows@.len() ==> are_finite((#[trigger] rows@[i])@),
        SqliteBatchRows::Bulk { row_parameter_count, values } => {
            &&& row_parameter_count > 0
            &&& batch.shared().len() + row_parameter_count <= usize::MAX
            &&& exists|rows: int|
                #![trigger rows * row_parameter_count]
                values@.len() == rows * row_parameter_count
            &&& are_finite(values@)
        },
    }
}

/// Whether a step can be run; a batch that must hit rows one by one has its rows one by one.
pub open spec fn can_be_taken(step: SqliteTransactionStep) -> bool {
    match step {
        SqliteTransactionStep::Execute(command) => can_be_seen(command.sql()) && are_finite(
            command.bound(),
        ),
        SqliteTransactionStep::ExecuteMany(batch) => can_be_run(batch),
        SqliteTransactionStep::ExecuteManyExactlyOne(batch) => can_be_run(batch) && batch.listed()
            is Each,
        SqliteTransactionStep::RequireNoRowsMany(batch) => can_be_run(batch) && batch.listed() is Each,
        SqliteTransactionStep::RequireNoRows(query) => can_be_seen(query.sql()) && are_finite(
            query.bound(),
        ),
        SqliteTransactionStep::RequireNoRowsReturningFirstRow(query) => can_be_seen(query.sql())
            && are_finite(query.bound()),
    }
}

/// A value can be stored unless it is a number that is not finite.
pub proof fn finite_numbers_can_be_stored(value: SqliteValue)
    ensures
        value.is_storable() <==> (value matches SqliteValue::Real(bits) ==> is_finite(bits)),
{
    if let SqliteValue::Real(bits) = value {
        assert(((bits / 0x10_0000_0000_0000) % 0x800 != 0x7ff) == (bits % 0x8000_0000_0000_0000
            < 0x7ff0_0000_0000_0000)) by (bit_vector);
    }
}

proof fn lemma_all_storable(values: Seq<SqliteValue>)
    ensures
        sqlite_plan::all_storable(values) <==> are_finite(values),
{
    assert forall|i: int| 0 <= i < values.len() implies (#[trigger] values[i]).is_storable() == (
    values[i] matches SqliteValue::Real(bits) ==> is_finite(bits)) by {
        finite_numbers_can_be_stored(values[i]);
    }
}

/// A statement is accepted exactly when it says something and its values can be stored. A
/// blank one is told as such, also when its values are wrong too.
pub proof fn statements_must_say_something(sql: Seq<char>, values: Seq<SqliteValue>)
    ensures
        ({
            let fault = sqlite_plan::statement_fault(sql, values);
            &&& fault is None <==> can_be_seen(sql) && are_finite(values)
            &&& fault == Some(SqliteRuntimeError::InvalidValue("statement 不得为空")) <== !can_be_seen(sql)
            &&& fault == Some(SqliteRuntimeError::InvalidValue("REAL 参数必须是有限数值"))
                <== can_be_seen(sql) && !are_finite(values)
        }),
{
    lemma_all_storable(values);
    if can_be_seen(sql) {
        let i = choose|i: int|
            {
                let code = #[trigger] sql[i] as int;
                &&& 0 <= i < sql.len()
                &&& !(0x9 <= code <= 0xd)
                &&& code != 0x20
                &&& code != 0x85
                &&& code != 0xa0
                &&& code != 0x1680
                &&& !(0x2000 <= code <= 0x200a)
                &&& code != 0x2028
                &&& code != 0x2029
                &&& code != 0x202f
                &&& code != 0x205f
                &&& code != 0x3000
            };
        assert(!sqlite_plan::is_white_space(sql[i]));
    } else if !sqlite_plan::is_blank(sql) {
        let i = choose|i: int|
            0 <= i < sql.len() && !sqlite_plan::is_white_space(#[trigger] sql[i]);
        assert(0 <= i < sql.len() && !sqlite_plan::is_white_space(sql[i]));
        assert(can_be_seen(sql));
    }
}

/// A batch is accepted exactly when it can be run; where only one thing is wrong with it,
/// that is told.
pub proof fn batches_must_be_whole(batch: SqliteBatch)
    ensures
        ({
            let fault = sqlite_plan::batch_fault(batch);
            &&& fault is None <==> can_be_run(batch)
            &&& fault == Some(SqliteRuntimeError::InvalidValue("statement 不得为空")) <== !can_be_seen(
                batch.sql(),
            )
            &&& can_be_seen(batch.sql()) && are_finite(batch.shared()) ==> match batch.listed() {
                SqliteBatchRows::Each(_) => fault is None || fault == Some(
                    SqliteRuntimeError::InvalidValue("REAL 参数必须是有限数值"),
                ),
                SqliteBatchRows::Bulk { row_parameter_count, values } => {
                    &&& row_parameter_count == 0 ==> fault == Some(
                        SqliteRuntimeError::Internal("bulk INSERT 每行参数数量不得为零"),
                    )
                    &&& row_parameter_count > 0 && batch.shared().len() + row_parameter_count
                        > usize::MAX ==> fault == Some(
                        SqliteRuntimeError::Internal("bulk INSERT 单行参数数量溢出"),
                    )
                    &&& row_parameter_count > 0 && batch.shared().len() + row_parameter_count
                        <= usize::MAX && !(exists|rows: int|
                        #![trigger rows * row_parameter_count]
                        values@.len() == rows * row_parameter_count) ==> fault == Some(
                        SqliteRuntimeError::Internal("bulk INSERT 扁平参数无法整除为完整行"),
                    )
                },
            }
        }),
{
    statements_must_say_something(batch.sql(), batch.shared());
    match batch.listed() {
        SqliteBatchRows::Each(rows) => {
            assert forall|i: int| 0 <= i < rows@.len() implies sqlite_plan::all_storable(
                (#[trigger] rows@[i])@,
            ) == are_finite(rows@[i]@) by {
                lemma_all_storable(rows@[i]@);
            }
        },
        SqliteBatchRows::Bulk { row_parameter_count, values } => {
            lemma_all_storable(values@);
            if row_parameter_count > 0 {
                let (count, width) = (values@.len() as int, row_parameter_count as int);
                if count % width == 0 {
                    vstd::arithmetic::div_mod::lemma_fundamental_div_mod(count, width);
                    assert(width * (count / width) == (count / width) * width) by (nonlinear_arith);
                    assert(count == (count / width) * width);
                }
                if exists|rows: int|
                    #![trigger rows * row_parameter_count]
                    values@.len() == rows * row_parameter_count {
                    let rows = choose|rows: int|
                        #![trigger rows * row_parameter_count]
                        values@.len() == rows * row_parameter_count;
                    vstd::arithmetic::div_mod::lemma_mod_multiples_basic(rows, width);
                }
            }
        },
    }
}

/// A step is accepted exactly when it can be taken.
pub proof fn steps_must_be_possible(step: SqliteTransactionStep)
    ensures
        sqlite_plan::step_fault(step) is None <==> can_be_taken(step),
        step matches SqliteTransactionStep::ExecuteManyExactlyOne(batch) ==> (can_be_run(batch)
            && batch.listed() is Bulk ==> sqlite_plan::step_fault(step) == Some(
            SqliteRuntimeError::Internal("bulk INSERT 不支持 ExactlyOne 语义"),
        )),
        step matches SqliteTransactionStep::RequireNoRowsMany(batch) ==> (can_be_run(batch)
            && batch.listed() is Bulk ==> sqlite_plan::step_fault(step) == Some(
            SqliteRuntimeError::Internal("bulk INSERT 不支持 Require 语义"),
        )),
{
    match step {
        SqliteTransactionStep::Execute(command) => {
            statements_must_say_something(command.sql(), command.bound());
        },
        SqliteTransactionStep::ExecuteMany(batch) => {
            batches_must_be_whole(batch);
        },
        SqliteTransactionStep::ExecuteManyExactlyOne(batch) => {
            batches_must_be_whole(batch);
        },
        SqliteTransactionStep::RequireNoRowsMany(batch) => {
            batches_must_be_whole(batch);
        },
        SqliteTransactionStep::RequireNoRows(query) => {
            statements_must_say_something(query.sql(), query.bound());
        },
        SqliteTransactionStep::RequireNoRowsReturningFirstRow(query) => {
            statements_must_say_something(query.sql(), query.bound());
        },
    }
}

/// A plan is accepted exactly when each of its steps can be taken, and otherwise refused for
/// the first that cannot.
pub proof fn plans_are_refused_for_their_first_fault(plan: SqliteTransactionPlan)
    ensures
        match sqlite_plan::plan_fault(plan) {
            None => forall|i: int|
                0 <= i < plan.planned().len() ==> can_be_taken(#[trigger] plan.planned()[i]),
            Some(error) => exists|i: int|
                {
                    &&& 0 <= i < plan.planned().len()
                    &&& !can_be_taken(#[trigger] plan.planned()[i])
                    &&& sqlite_plan::step_fault(plan.planned()[i]) == Some(error)
                    &&& forall|k: int| 0 <= k < i ==> can_be_taken(#[trigger] plan.planned()[k])
                },
        },
        sqlite_plan::accepted(sqlite_plan::plan_fault(plan)) is Ok <==> sqlite_plan::plan_fault(plan)
            is None,
        sqlite_plan::plan_fault(plan) matches Some(error) ==> sqlite_plan::accepted(
            sqlite_plan::plan_fault(plan),
        ) == Err::<(), SqliteRuntimeError>(error),
{
    let steps = plan.planned();
    let faulty = sqlite_plan::faulty_steps(steps);
    search::lemma_first_meaning(faulty, 0, steps.len() as int);
    assert forall|i: int| 0 <= i < steps.len() implies faulty(i) == !can_be_taken(#[trigger] steps[i]) by {
        steps_must_be_possible(steps[i]);
    }
    if let Some(i) = search::first_such(faulty, 0, steps.len() as int) {
        assert(faulty(i));
        assert(!can_be_taken(steps[i]));
    }
}

/// The queries of a snapshot are accepted exactly when there are some and each says
/// something; otherwise they are refused for the first that does not.
pub proof fn snapshots_are_refused_for_their_first_fault(queries: Seq<SqliteQuery>)
    ensures
        ({
            let fault = sqlite_plan::snapshot_fault(queries);
            &&& fault is None <==> queries.len() > 0 && forall|i: int|
                0 <= i < queries.len() ==> can_be_seen((#[trigger] queries[i]).sql()) && are_finite(
                    queries[i].bound(),
                )
            &&& queries.len() == 0 ==> fault == Some(
                SqliteRuntimeError::InvalidValue("只读快照查询集合不得为空"),
            )
            &&& queries.len() > 0 && fault is Some ==> exists|i: int|
                {
                    &&& 0 <= i < queries.len()
                    &&& !(can_be_seen((#[trigger] queries[i]).sql()) && are_finite(queries[i].bound()))
                    &&& fault == sqlite_plan::statement_fault(queries[i].sql(), queries[i].bound())
                    &&& forall|k: int|
                        0 <= k < i ==> can_be_seen((#[trigger] queries[k]).sql()) && are_finite(
                            queries[k].bound(),
                        )
                }
        }),
{
    let faulty = sqlite_plan::faulty_queries(queries);
    search::lemma_first_meaning(faulty, 0, queries.len() as int);
    assert forall|i: int| 0 <= i < queries.len() implies faulty(i) == !(can_be_seen(
        (#[trigger] queries[i]).sql(),
    ) && are_finite(queries[i].bound())) by {
        statements_must_say_something(queries[i].sql(), queries[i].bound());
    }
    if let Some(i) = search::first_such(faulty, 0, queries.len() as int) {
        assert(faulty(i));
        statements_must_say_something(queries[i].sql(), queries[i].bound());
    }
}

/// Rows of one width stand one after another, each value in its place.
pub proof fn rows_stand_one_after_another(rows: Seq<Vec<SqliteValue>>, width: int, i: int, k: int)
    requires
        forall|r: int| 0 <= r < rows.len() ==> (#[trigger] rows[r])@.len() == width,
        0 <= i < rows.len(),
        0 <= k < width,
    ensures
        sqlite_plan::in_a_row(rows).len() == rows.len() * width,
        0 <= i * width + k < rows.len() * width,
        sqlite_plan::in_a_row(rows)[i * width + k] == rows[i]@[k],
    decreases rows.len(),
{
    let before = rows.drop_last();
    assert forall|r: int| 0 <= r < before.len() implies (#[trigger] before[r])@.len() == width by {
        assert(before[r] == rows[r]);
    }
    lemma_width(before, width);
    let count = rows.len() as int;
    assert((count - 1) * width + width == count * width) by (nonlinear_arith);
    assert(rows[count - 1]@.len() == width);
    if i < before.len() {
        rows_stand_one_after_another(before, width, i, k);
        assert(before[i] == rows[i]);
        assert(i * width + k < (count - 1) * width);
    } else {
        assert(i == count - 1);
    }
    assert(0 <= i * width) by (nonlinear_arith)
        requires
            0 <= i,
            0 <= width,
    ;
}

proof fn lemma_width(rows: Seq<Vec<SqliteValue>>, width: int)
    requires
        forall|r: int| 0 <= r < rows.len() ==> (#[trigger] rows[r])@.len() == width,
    ensures
        sqlite_plan::in_a_row(rows).len() == rows.len() * width,
    decreases rows.len(),
{
    if rows.len() > 0 {
        let before = rows.drop_last();
        assert forall|r: int| 0 <= r < before.len() implies (#[trigger] before[r])@.len() == width by {
            assert(before[r] == rows[r]);
        }
        lemma_width(before, width);
        let count = rows.len() as int;
        assert((count - 1) * width + width == count * width) by (nonlinear_arith);
        assert(rows[count - 1]@.len() == width);
    } else {
        assert(0 * width == 0) by (nonlinear_arith);
    }
}

/// The counter of one control statement in one kind of transaction.
pub open spec fn tally(
    counts: RunPerformanceSnapshot,
    scope: SqliteTransactionScope,
    control: SqliteTransactionControl,
) -> SqliteControlCounts {
    let all = counts.sqlite_transactions;
    let scoped = match scope {
        SqliteTransactionScope::ReadSnapshot => all.read_snapshot,
        SqliteTransactionScope::WritePlan => all.write_plan,
        SqliteTransactionScope::DatabaseInitialization => all.database_initialization,
        SqliteTransactionScope::Interactive => all.interactive,
    };
    match control {
        SqliteTransactionControl::Begin => scoped.begin,
        SqliteTransactionControl::Commit => scoped.commit,
        SqliteTransactionControl::Rollback => scoped.rollback,
    }
}

/// Only the counter of the statement that ran grows, by one attempt or one success, and a
/// full counter stays full. A run starts with nothing counted.
pub proof fn each_statement_has_its_own_counter(
    counts: RunPerformanceSnapshot,
    scope: SqliteTransactionScope,
    control: SqliteTransactionControl,
    attempt: bool,
    other_scope: SqliteTransactionScope,
    other: SqliteTransactionControl,
)
    ensures
        ({
            let before = tally(counts, scope, control);
            let after = performance::recorded(counts, scope, control, attempt);
            let grown = tally(after, scope, control);
            &&& attempt && before.attempted < u64::MAX ==> grown.attempted == before.attempted + 1
            &&& !attempt && before.succeeded < u64::MAX ==> grown.succeeded == before.succeeded + 1
            &&& attempt && before.attempted == u64::MAX ==> grown.attempted == u64::MAX
            &&& !attempt && before.succeeded == u64::MAX ==> grown.succeeded == u64::MAX
            &&& attempt ==> grown.succeeded == before.succeeded
            &&& !attempt ==> grown.attempted == before.attempted
            &&& (other_scope, other) != (scope, control) ==> tally(after, other_scope, other) == tally(
                counts,
                other_scope,
                other,
            )
            &&& after.candidate_validations == counts.candidate_validations
        }),
        tally(performance::RunPerformanceCounters::zero(), scope, control) == (SqliteControlCounts {
            attempted: 0,
            succeeded: 0,
        }),
        performance::RunPerformanceCounters::zero().candidate_validations.started == 0,
        performance::RunPerformanceCounters::zero().candidate_validations.completed == 0,
{
}

/// Every attempt counts once in the total, which stays at the largest number once it is there.
pub proof fn every_attempt_is_in_the_total(
    counts: RunPerformanceSnapshot,
    scope: SqliteTransactionScope,
    control: SqliteTransactionControl,
)
    ensures
        performance::RunPerformanceCounters::zero().sqlite_transactions.attempts_capped() == 0,
        ({
            let before = counts.sqlite_transactions.attempts_capped();
            let tried = performance::recorded(
                counts,
                scope,
                control,
                true,
            ).sqlite_transactions.attempts_capped();
            let succeeded = performance::recorded(
                counts,
                scope,
                control,
                false,
            ).sqlite_transactions.attempts_capped();
            &&& 0 <= before <= u64::MAX
            &&& before < u64::MAX ==> tried == before + 1
            &&& before == u64::MAX ==> tried == u64::MAX
            &&& succeeded == before
        }),
{
}

} // verus!
