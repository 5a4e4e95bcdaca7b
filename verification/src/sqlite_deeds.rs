//! What a connection did for a transaction, told from what it was asked and what it
//! answered.

use vstd::prelude::*;
use crate::sqlite_bulk;
use crate::sqlite_error::{SqliteDriverCause, SqliteDriverError, SqliteRuntimeError};
use crate::sqlite_laws::Trace;
use crate::sqlite_plan;
use crate::sqlite_plan::{SqliteBatch, SqliteBatchRows, SqliteTransactionStep, SqliteValue};
use crate::search;
use crate::sqlite_row;
use crate::sqlite_row::SqliteColumn;
use crate::sqlite_transaction;
use crate::sqlite_transaction::{
    ExecuteTransactionError, FirstRowReply, RollbackCause, TransactionReply, TransactionRequest,
    TransactionState,
};

verus! {

/// A run of a transaction with what the connection was asked in each of its states.
pub ghost struct Talk<'a> {
    pub trace: Trace,
    pub requests: Seq<TransactionRequest<'a>>,
}

/// Something that the connection did. A statement is known by its text, and its parameters
/// by the numbers they are bound to.
pub ghost enum Deed {
    Controlled { statement: Seq<char> },
    Ran { sql: Option<Seq<char>>, bound: Map<int, SqliteValue> },
    Changed { sql: Option<Seq<char>>, bound: Map<int, SqliteValue>, rows: usize },
    Looked { sql: Option<Seq<char>>, bound: Map<int, SqliteValue>, found: bool },
    Inserted { sql: Option<Seq<char>>, bound: Map<int, SqliteValue>, values: Seq<SqliteValue> },
}

/// Values bound in order; the first has number one.
pub open spec fn in_order(values: Seq<SqliteValue>) -> Map<int, SqliteValue> {
    Map::new(|number: int| 1 <= number <= values.len(), |number: int| values[number - 1])
}

impl<'a> Talk<'a> {
    /// Whether the connection was asked what each state asks for.
    pub open spec fn is_talk(self, steps: Seq<SqliteTransactionStep>) -> bool {
        &&& self.trace.is_run(steps)
        &&& self.requests.len() == self.trace.replies.len()
        &&& forall|i: int|
            0 <= i < self.requests.len() ==> sqlite_transaction::is_request(
                self.trace.states[i],
                steps,
                #[trigger] self.requests[i],
            )
    }

    /// The statement that was prepared last before place `end`.
    pub open spec fn prepared(self, end: int) -> Option<Seq<char>>
        decreases end,
    {
        if end <= 0 {
            None
        } else {
            match self.requests[end - 1] {
                TransactionRequest::Prepare { statement } => Some(statement@),
                TransactionRequest::PrepareInsert { statement } => Some(statement@),
                _ => self.prepared(end - 1),
            }
        }
    }

    /// What is bound to that statement at place `end`.
    pub open spec fn bound(self, end: int) -> Map<int, SqliteValue>
        decreases end,
    {
        if end <= 0 {
            Map::empty()
        } else {
            match self.requests[end - 1] {
                TransactionRequest::Prepare { .. } => Map::empty(),
                TransactionRequest::PrepareInsert { .. } => Map::empty(),
                TransactionRequest::Bind { index, value } => self.bound(end - 1).insert(
                    index as int,
                    *value,
                ),
                _ => self.bound(end - 1),
            }
        }
    }

    /// What the connection did at place `i`, if it did something.
    pub open spec fn deed(self, i: int) -> Option<Deed> {
        let sql = self.prepared(i);
        match (self.requests[i], self.trace.replies[i]) {
            (
                TransactionRequest::Control { statement, .. },
                TransactionReply::Done(Ok(_)),
            ) => Some(Deed::Controlled { statement: statement@ }),
            (
                TransactionRequest::Execute { parameters },
                TransactionReply::Done(Ok(_)),
            ) => Some(Deed::Ran { sql, bound: in_order(parameters@) }),
            (
                TransactionRequest::Exists { parameters },
                TransactionReply::Found(Ok(found)),
            ) => Some(Deed::Looked { sql, bound: in_order(parameters@), found }),
            (
                TransactionRequest::FirstRow { parameters },
                TransactionReply::FirstRow(FirstRowReply::Absent),
            ) => Some(Deed::Looked { sql, bound: in_order(parameters@), found: false }),
            (
                TransactionRequest::FirstRow { parameters },
                TransactionReply::FirstRow(FirstRowReply::Row(_)),
            ) => Some(Deed::Looked { sql, bound: in_order(parameters@), found: true }),
            (TransactionRequest::ExecuteBound, TransactionReply::Count(Ok(rows))) => Some(
                Deed::Changed { sql, bound: self.bound(i), rows },
            ),
            (TransactionRequest::ExistsBound, TransactionReply::Found(Ok(found))) => Some(
                Deed::Looked { sql, bound: self.bound(i), found },
            ),
            (
                TransactionRequest::ExecuteInsert { shared, values, start, count },
                TransactionReply::Done(Ok(_)),
            ) => {
                let part = values@.subrange(start as int, start + count);
                Some(Deed::Inserted { sql, bound: in_order(shared@ + part), values: part })
            },
            _ => None,
        }
    }

    /// All that the connection did before place `end`, in order.
    pub open spec fn deeds(self, end: int) -> Seq<Deed>
        decreases end,
    {
        if end <= 0 {
            Seq::empty()
        } else {
            match self.deed(end - 1) {
                Some(deed) => self.deeds(end - 1).push(deed),
                None => self.deeds(end - 1),
            }
        }
    }
}

/// One after another.
pub open spec fn all_of(parts: Seq<Seq<Deed>>) -> Seq<Deed>
    decreases parts.len(),
{
    if parts.len() == 0 {
        Seq::empty()
    } else {
        all_of(parts.drop_last()) + parts.last()
    }
}

/// The rows that INSERT statements carried, one after another.
pub open spec fn values_of(deeds: Seq<Deed>) -> Seq<SqliteValue>
    decreases deeds.len(),
{
    if deeds.len() == 0 {
        Seq::empty()
    } else {
        values_of(deeds.drop_last()) + deeds.last()->Inserted_values
    }
}

/// Whether `deed` is the change that row `values` of a batch asks for. Where exactly one
/// row has to change, one did.
pub open spec fn is_change(
    deed: Deed,
    batch: SqliteBatch,
    values: Seq<SqliteValue>,
    exactly_one: bool,
) -> bool {
    &&& deed matches Deed::Changed { sql, bound, rows }
    &&& sql == Some(batch.sql())
    &&& bound == in_order(batch.shared() + values)
    &&& exactly_one ==> rows == 1
}

/// Whether `deed` is the search that row `values` of a batch asks for, and nothing was
/// found.
pub open spec fn is_vain_search(deed: Deed, batch: SqliteBatch, values: Seq<SqliteValue>) -> bool {
    &&& deed matches Deed::Looked { sql, bound, found }
    &&& sql == Some(batch.sql())
    &&& bound == in_order(batch.shared() + values)
    &&& !found
}

/// Whether `deed` inserts whole rows of a bulk batch, with the shared parameters first.
pub open spec fn is_insert(deed: Deed, batch: SqliteBatch, width: usize) -> bool {
    &&& deed matches Deed::Inserted { sql, bound, values }
    &&& values.len() > 0
    &&& values.len() as int % width as int == 0
    &&& bound == in_order(batch.shared() + values)
    &&& sql == Some(
        sqlite_bulk::bulk_statement(
            batch.sql(),
            batch.shared().len() as int,
            width as int,
            values.len() as int / width as int,
        ),
    )
}

/// Whether `deeds` are what the first `count` rows of a step ask for.
pub open spec fn rows_done(step: SqliteTransactionStep, count: int, deeds: Seq<Deed>) -> bool {
    &&& deeds.len() == count
    &&& match step {
        SqliteTransactionStep::ExecuteMany(batch) => {
            &&& batch.listed() matches SqliteBatchRows::Each(rows)
            &&& forall|r: int| 0 <= r < count ==> is_change(#[trigger] deeds[r], batch, rows@[r]@, false)
        },
        SqliteTransactionStep::ExecuteManyExactlyOne(batch) => {
            &&& batch.listed() matches SqliteBatchRows::Each(rows)
            &&& forall|r: int| 0 <= r < count ==> is_change(#[trigger] deeds[r], batch, rows@[r]@, true)
        },
        SqliteTransactionStep::RequireNoRowsMany(batch) => {
            &&& batch.listed() matches SqliteBatchRows::Each(rows)
            &&& forall|r: int| 0 <= r < count ==> is_vain_search(#[trigger] deeds[r], batch, rows@[r]@)
        },
        _ => false,
    }
}

/// Whether `deeds` insert the first `count` values of a bulk batch.
pub open spec fn values_done(batch: SqliteBatch, count: int, deeds: Seq<Deed>) -> bool {
    &&& batch.listed() matches SqliteBatchRows::Bulk { row_parameter_count: width, values }
    &&& 0 <= count <= values@.len()
    &&& values_of(deeds) == values@.subrange(0, count)
    &&& forall|k: int| 0 <= k < deeds.len() ==> is_insert(#[trigger] deeds[k], batch, width)
}

/// How many parameter sets a batch lists one by one.
pub open spec fn listed_rows(batch: SqliteBatch) -> int {
    match batch.listed() {
        SqliteBatchRows::Each(rows) => rows@.len() as int,
        SqliteBatchRows::Bulk { .. } => 0,
    }
}

/// Whether `deeds` are exactly what a step asks for: its statement ran with its parameters,
/// once for every parameter set and in their order, and no requirement was broken.
pub open spec fn step_done(step: SqliteTransactionStep, deeds: Seq<Deed>) -> bool {
    match step {
        SqliteTransactionStep::Execute(command) => deeds == seq![
            Deed::Ran { sql: Some(command.sql()), bound: in_order(command.bound()) },
        ],
        SqliteTransactionStep::RequireNoRows(query) => deeds == seq![
            Deed::Looked { sql: Some(query.sql()), bound: in_order(query.bound()), found: false },
        ],
        SqliteTransactionStep::RequireNoRowsReturningFirstRow(query) => deeds == seq![
            Deed::Looked { sql: Some(query.sql()), bound: in_order(query.bound()), found: false },
        ],
        SqliteTransactionStep::ExecuteMany(batch) => match batch.listed() {
            SqliteBatchRows::Each(_) => rows_done(step, listed_rows(batch), deeds),
            SqliteBatchRows::Bulk { values, .. } => values_done(batch, values@.len() as int, deeds),
        },
        SqliteTransactionStep::ExecuteManyExactlyOne(batch) => match batch.listed() {
            SqliteBatchRows::Each(_) => rows_done(step, listed_rows(batch), deeds),
            SqliteBatchRows::Bulk { values, .. } => values@.len() == 0 && deeds.len() == 0,
        },
        SqliteTransactionStep::RequireNoRowsMany(batch) => match batch.listed() {
            SqliteBatchRows::Each(_) => rows_done(step, listed_rows(batch), deeds),
            SqliteBatchRows::Bulk { values, .. } => values@.len() == 0 && deeds.len() == 0,
        },
    }
}

/// What is known of a run at place `i`: the finished steps, and what was done for the
/// current one.
spec fn known(
    talk: Talk<'_>,
    steps: Seq<SqliteTransactionStep>,
    i: int,
    parts: Seq<Seq<Deed>>,
    current: Seq<Deed>,
) -> bool {
    let state = talk.trace.states[i];
    let begun = seq![Deed::Controlled { statement: "BEGIN IMMEDIATE"@ }];
    let ended = seq![Deed::Controlled { statement: "COMMIT"@ }];
    let all_done = forall|s: int| 0 <= s < parts.len() ==> step_done(steps[s], #[trigger] parts[s]);
    match state {
        TransactionState::Beginning => talk.deeds(i) == Seq::<Deed>::empty(),
        TransactionState::Committing => {
            &&& talk.deeds(i) == begun + all_of(parts)
            &&& parts.len() == steps.len()
            &&& all_done
        },
        TransactionState::CheckingCommit { failure: None } => {
            &&& talk.deeds(i) == begun + all_of(parts) + ended
            &&& parts.len() == steps.len()
            &&& all_done
        },
        TransactionState::Finished { result: Ok(_) } => {
            &&& talk.deeds(i) == begun + all_of(parts) + ended
            &&& parts.len() == steps.len()
            &&& all_done
        },
        _ => match state.step() {
            None => true,
            Some(step) => {
                &&& talk.deeds(i) == begun + all_of(parts) + current
                &&& parts.len() == step
                &&& all_done
                &&& at_work(talk, steps, i, current)
            },
        },
    }
}

/// What is known of the current step at place `i`.
spec fn at_work(
    talk: Talk<'_>,
    steps: Seq<SqliteTransactionStep>,
    i: int,
    current: Seq<Deed>,
) -> bool {
    match talk.trace.states[i] {
        TransactionState::Preparing { .. } => current.len() == 0,
        TransactionState::ReadingVariableLimit { .. } => current.len() == 0,
        TransactionState::Running { step } => {
            &&& current.len() == 0
            &&& talk.prepared(i) == Some(sqlite_transaction::sql_of(steps[step as int]))
        },
        TransactionState::BindingShared { step, expected, next } => {
            let batch = sqlite_transaction::batch_of(steps[step as int])->0;
            &&& current.len() == 0
            &&& talk.prepared(i) == Some(sqlite_transaction::sql_of(steps[step as int]))
            &&& talk.bound(i) == in_order(batch.shared().take(next as int))
            &&& rows_done(steps[step as int], 0, current)
            &&& batch.shared().len() <= expected
        },
        TransactionState::BindingRow { step, expected, row, next } => {
            let batch = sqlite_transaction::batch_of(steps[step as int])->0;
            let values = sqlite_transaction::rows_of(batch)[row as int]@;
            &&& talk.prepared(i) == Some(sqlite_transaction::sql_of(steps[step as int]))
            &&& bound_up_to(talk.bound(i), batch.shared() + values, batch.shared().len() + next)
            &&& rows_done(steps[step as int], row as int, current)
            &&& batch.shared().len() + values.len() == expected
        },
        TransactionState::RunningRow { step, expected, row } => {
            let batch = sqlite_transaction::batch_of(steps[step as int])->0;
            let values = sqlite_transaction::rows_of(batch)[row as int]@;
            &&& talk.prepared(i) == Some(sqlite_transaction::sql_of(steps[step as int]))
            &&& talk.bound(i) == in_order(batch.shared() + values)
            &&& rows_done(steps[step as int], row as int, current)
            &&& batch.shared().len() + values.len() == expected
        },
        TransactionState::PreparingInsert { step, layout, start, sql } => {
            let batch = sqlite_transaction::batch_of(steps[step as int])->0;
            &&& values_done(batch, start as int, current)
            &&& sql@ == insert_sql(batch, layout, start as int)
        },
        TransactionState::RunningInsert { step, layout, start } => {
            let batch = sqlite_transaction::batch_of(steps[step as int])->0;
            &&& values_done(batch, start as int, current)
            &&& talk.prepared(i) == Some(insert_sql(batch, layout, start as int))
        },
        TransactionState::CheckingStep { step } => step_done(steps[step as int], current),
        _ => true,
    }
}

/// The statement of the INSERT that starts at value `start`.
spec fn insert_sql(batch: SqliteBatch, layout: sqlite_bulk::BulkLayout, start: int) -> Seq<char> {
    sqlite_bulk::bulk_statement(
        batch.sql(),
        layout.shared_variables(),
        layout.row_width(),
        (layout.end_of(start) - start) / layout.row_width(),
    )
}

/// Whether the first `count` of the values are bound, and no other number than theirs.
spec fn bound_up_to(bound: Map<int, SqliteValue>, values: Seq<SqliteValue>, count: int) -> bool {
    &&& forall|number: int| #[trigger]
        bound.dom().contains(number) ==> 1 <= number <= values.len()
    &&& forall|number: int| 1 <= number <= count ==> #[trigger] bound.dom().contains(number)
        && bound[number] == values[number - 1]
}

proof fn lemma_push_part(parts: Seq<Seq<Deed>>, part: Seq<Deed>)
    ensures
        all_of(parts.push(part)) == all_of(parts) + part,
{
    assert(parts.push(part).drop_last() =~= parts);
}

proof fn lemma_push_insert(deeds: Seq<Deed>, deed: Deed)
    ensures
        values_of(deeds.push(deed)) == values_of(deeds) + deed->Inserted_values,
{
    assert(deeds.push(deed).drop_last() =~= deeds);
}

/// Nothing is done yet for a step that has just started.
proof fn lemma_started(
    talk: Talk<'_>,
    steps: Seq<SqliteTransactionStep>,
    i: int,
    parts: Seq<Seq<Deed>>,
)
    requires
        steps.len() <= usize::MAX,
        parts.len() <= steps.len(),
        talk.trace.states[i] == sqlite_transaction::started_step(steps, parts.len() as int),
        talk.deeds(i) == seq![Deed::Controlled { statement: "BEGIN IMMEDIATE"@ }] + all_of(parts),
        forall|s: int| 0 <= s < parts.len() ==> step_done(steps[s], #[trigger] parts[s]),
    ensures
        known(talk, steps, i, parts, Seq::empty()),
{
    let none = Seq::<Deed>::empty();
    assert(talk.deeds(i) =~= seq![Deed::Controlled { statement: "BEGIN IMMEDIATE"@ }] + all_of(parts)
        + none);
    if parts.len() < steps.len() {
        let step = steps[parts.len() as int];
        if let Some(batch) = sqlite_transaction::batch_of(step) {
            if let Some(values) = sqlite_transaction::bulk_values(batch) {
                if values.len() == 0 {
                    assert(values_of(none) =~= values.subrange(0, 0));
                    assert(step_done(step, none));
                }
            }
        }
    }
}

/// What is bound when row `row` starts: the shared parameters and what an earlier row left.
proof fn lemma_row_started(
    talk: Talk<'_>,
    steps: Seq<SqliteTransactionStep>,
    i: int,
    step: usize,
    expected: usize,
    row: int,
    current: Seq<Deed>,
)
    requires
        step < steps.len(),
        sqlite_transaction::batch_of(steps[step as int]) is Some,
        sqlite_transaction::bulk_values(sqlite_transaction::batch_of(steps[step as int])->0) is None,
        0 <= row <= sqlite_transaction::rows_of(
            sqlite_transaction::batch_of(steps[step as int])->0,
        ).len(),
        row <= usize::MAX,
        sqlite_transaction::starts_row(steps, step as int, expected, row, talk.trace.states[i]),
        talk.prepared(i) == Some(sqlite_transaction::sql_of(steps[step as int])),
        rows_done(steps[step as int], row, current),
        ({
            let shared = sqlite_transaction::batch_of(steps[step as int])->0.shared();
            let bound = talk.bound(i);
            &&& forall|number: int| #[trigger] bound.dom().contains(number) ==> 1 <= number <= expected
            &&& forall|number: int| 1 <= number <= shared.len() ==> #[trigger] bound.dom().contains(
                number,
            ) && bound[number] == shared[number - 1]
        }),
    ensures
        talk.trace.states[i].step() is Some ==> talk.trace.states[i].step() == Some(step as int)
            && at_work(talk, steps, i, current),
        talk.trace.states[i].step() is None ==> talk.trace.states[i] is RollingBack,
{
    let batch = sqlite_transaction::batch_of(steps[step as int])->0;
    let rows = sqlite_transaction::rows_of(batch);
    sqlite_plan::lemma_batch_sizes(batch);
    if row < rows.len() {
        let all = batch.shared() + rows[row]@;
        if all.len() == expected {
            let bound = talk.bound(i);
            assert(bound_up_to(bound, all, batch.shared().len() as int));
            if rows[row]@.len() == 0 {
                assert(all =~= batch.shared());
                assert(bound =~= in_order(all));
            }
        }
    }
}

/// What the next answer adds to what is known.
#[verifier::rlimit(60)]
#[verifier::spinoff_prover]
proof fn lemma_next(
    talk: Talk<'_>,
    steps: Seq<SqliteTransactionStep>,
    i: int,
    parts: Seq<Seq<Deed>>,
    current: Seq<Deed>,
) -> (found: (Seq<Seq<Deed>>, Seq<Deed>))
    requires
        talk.is_talk(steps),
        steps.len() <= usize::MAX,
        0 <= i < talk.requests.len(),
        known(talk, steps, i, parts, current),
    ensures
        known(talk, steps, i + 1, found.0, found.1),
{
    let begun = seq![Deed::Controlled { statement: "BEGIN IMMEDIATE"@ }];
    let none = Seq::<Deed>::empty();
    let state = talk.trace.states[i];
    let next = talk.trace.states[i + 1];
    let reply = talk.trace.replies[i];
    let request = talk.requests[i];
    assert(talk.trace.follows(steps, i));
    assert(sqlite_transaction::is_request(state, steps, request));
    if let Some(step) = state.step() {
        sqlite_plan::lemma_batch_sizes(sqlite_transaction::batch_of(steps[step])->0);
    }
    match state {
        TransactionState::Beginning => {
            if let TransactionReply::Done(Ok(_)) = reply {
                assert(talk.deeds(i + 1) =~= begun + all_of(Seq::empty()));
                lemma_started(talk, steps, i + 1, Seq::empty());
            }
            (Seq::empty(), none)
        },
        TransactionState::CheckingStep { step } => {
            if reply == TransactionReply::Autocommit(false) {
                let more = parts.push(current);
                lemma_push_part(parts, current);
                assert(talk.deeds(i + 1) =~= begun + all_of(more));
                assert forall|s: int| 0 <= s < more.len() implies step_done(
                    steps[s],
                    #[trigger] more[s],
                ) by {
                    if s < parts.len() {
                        assert(more[s] == parts[s]);
                    }
                }
                lemma_started(talk, steps, i + 1, more);
            }
            (parts.push(current), none)
        },
        TransactionState::Preparing { step } => {
            if let TransactionReply::Count(Ok(expected)) = reply {
                if let Some(batch) = sqlite_transaction::batch_of(steps[step as int]) {
                    assert(rows_done(steps[step as int], 0, current));
                    assert(talk.bound(i + 1) =~= in_order(batch.shared().take(0)));
                    if batch.shared().len() == 0 && next.step() is Some {
                        lemma_row_started(talk, steps, i + 1, step, expected, 0, current);
                    }
                }
            }
            (parts, current)
        },
        TransactionState::Running { step } => {
            match talk.deed(i) {
                Some(deed) => {
                    assert(current.push(deed) =~= seq![deed]);
                    assert(talk.deeds(i + 1) =~= begun + all_of(parts) + seq![deed]);
                    (parts, seq![deed])
                },
                None => (parts, current),
            }
        },
        TransactionState::BindingShared { step, expected, next: from } => {
            if let TransactionReply::Done(Ok(_)) = reply {
                let batch = sqlite_transaction::batch_of(steps[step as int])->0;
                assert(talk.bound(i + 1) =~= in_order(batch.shared().take(from + 1)));
                if from + 1 == batch.shared().len() && next.step() is Some {
                    assert(batch.shared().take(from + 1) =~= batch.shared());
                    lemma_row_started(talk, steps, i + 1, step, expected, 0, current);
                }
            }
            (parts, current)
        },
        TransactionState::BindingRow { step, expected, row, next: from } => {
            if let TransactionReply::Done(Ok(_)) = reply {
                let batch = sqlite_transaction::batch_of(steps[step as int])->0;
                let values = sqlite_transaction::rows_of(batch)[row as int]@;
                let all = batch.shared() + values;
                let count = batch.shared().len() + from + 1;
                assert(bound_up_to(talk.bound(i + 1), all, count)) by {
                    let before = talk.bound(i);
                    let after = talk.bound(i + 1);
                    assert(after == before.insert(count, values[from as int]));
                    assert(all[count - 1] == values[from as int]);
                    assert forall|number: int| #[trigger] after.dom().contains(number) implies 1
                        <= number <= all.len() by {
                        assert(number == count || before.dom().contains(number));
                    }
                    assert forall|number: int| 1 <= number <= count implies #[trigger] after.dom().contains(
                        number,
                    ) && after[number] == all[number - 1] by {
                        if number < count {
                            assert(before.dom().contains(number));
                        }
                    }
                }
                if count == all.len() {
                    assert(talk.bound(i + 1) =~= in_order(all));
                }
            }
            (parts, current)
        },
        TransactionState::RunningRow { step, expected, row } => {
            match talk.deed(i) {
                Some(deed) => {
                    let more = current.push(deed);
                    assert(talk.deeds(i + 1) =~= begun + all_of(parts) + more);
                    let batch = sqlite_transaction::batch_of(steps[step as int])->0;
                    if next.step() is Some {
                        assert(rows_done(steps[step as int], row + 1, more)) by {
                            assert forall|r: int| 0 <= r < row + 1 implies #[trigger] more[r] == (if r
                                < row {
                                current[r]
                            } else {
                                deed
                            }) by {}
                        }
                        let values = sqlite_transaction::rows_of(batch)[row as int]@;
                        assert(forall|number: int|
                            1 <= number <= batch.shared().len() ==> (batch.shared() + values)[number - 1]
                                == #[trigger] batch.shared()[number - 1]);
                        assert forall|number: int|
                            1 <= number <= batch.shared().len() implies #[trigger] talk.bound(
                            i + 1,
                        ).dom().contains(number) && talk.bound(i + 1)[number] == batch.shared()[number
                            - 1] by {
                            assert((batch.shared() + values)[number - 1] == batch.shared()[number - 1]);
                        }
                        lemma_row_started(talk, steps, i + 1, step, expected, row + 1, more);
                    }
                    (parts, more)
                },
                None => (parts, current),
            }
        },
        TransactionState::ReadingVariableLimit { step } => {
            if next.step() is Some {
                let batch = sqlite_transaction::batch_of(steps[step as int])->0;
                let values = sqlite_transaction::bulk_values(batch)->0;
                assert(values_of(current) =~= values.subrange(0, 0));
            }
            (parts, current)
        },
        TransactionState::PreparingInsert { .. } => (parts, current),
        TransactionState::RunningInsert { step, layout, start } => {
            match talk.deed(i) {
                Some(deed) => {
                    let batch = sqlite_transaction::batch_of(steps[step as int])->0;
                    let values = sqlite_transaction::bulk_values(batch)->0;
                    let end = layout.end_of(start as int);
                    sqlite_bulk::bulk_statements_cover_all_rows(layout, start as int);
                    let more = current.push(deed);
                    lemma_push_insert(current, deed);
                    assert(talk.deeds(i + 1) =~= begun + all_of(parts) + more);
                    assert(deed->Inserted_values == values.subrange(start as int, end));
                    assert(values_of(more) =~= values.subrange(0, end));
                    assert(values_done(batch, end, more)) by {
                        let width = layout.row_width() as usize;
                        assert(is_insert(deed, batch, width));
                        assert forall|k: int| 0 <= k < more.len() implies is_insert(
                            #[trigger] more[k],
                            batch,
                            width,
                        ) by {
                            if k < current.len() {
                                assert(more[k] == current[k]);
                            }
                        }
                    }
                    (parts, more)
                },
                None => (parts, current),
            }
        },
        TransactionState::Committing => {
            if let TransactionReply::Done(Ok(_)) = reply {
                assert(talk.deeds(i + 1) =~= begun + all_of(parts) + seq![
                    Deed::Controlled { statement: "COMMIT"@ },
                ]);
            }
            (parts, current)
        },
        _ => (parts, current),
    }
}

proof fn lemma_known(talk: Talk<'_>, steps: Seq<SqliteTransactionStep>, i: int) -> (found: (
    Seq<Seq<Deed>>,
    Seq<Deed>,
))
    requires
        talk.is_talk(steps),
        steps.len() <= usize::MAX,
        0 <= i <= talk.requests.len(),
    ensures
        known(talk, steps, i, found.0, found.1),
    decreases i,
{
    if i == 0 {
        (Seq::empty(), Seq::empty())
    } else {
        let (parts, current) = lemma_known(talk, steps, i - 1);
        lemma_next(talk, steps, i - 1, parts, current)
    }
}

/// A transaction that succeeds did exactly what its plan says, step by step and in order,
/// between one BEGIN and one COMMIT: every statement ran with its own parameters, once for
/// each parameter set, every requirement was looked up for each of its parameter sets and
/// nothing was found, and where exactly one row had to change one did.
pub proof fn a_success_did_what_was_planned(talk: Talk<'_>, steps: Seq<SqliteTransactionStep>) -> (parts:
    Seq<Seq<Deed>>)
    requires
        talk.is_talk(steps),
        steps.len() <= usize::MAX,
        talk.trace.states.last() == (TransactionState::Finished { result: Ok(()) }),
    ensures
        parts.len() == steps.len(),
        forall|s: int| 0 <= s < steps.len() ==> step_done(steps[s], #[trigger] parts[s]),
        talk.deeds(talk.requests.len() as int) == seq![
            Deed::Controlled { statement: "BEGIN IMMEDIATE"@ },
        ] + all_of(parts) + seq![Deed::Controlled { statement: "COMMIT"@ }],
{
    lemma_known(talk, steps, talk.requests.len() as int).0
}

/// The parameter sets of a step that has them one by one.
pub open spec fn parameter_sets(step: SqliteTransactionStep) -> Option<(SqliteBatch, Seq<Vec<SqliteValue>>)> {
    let batch = match step {
        SqliteTransactionStep::ExecuteMany(batch) => Some(batch),
        SqliteTransactionStep::ExecuteManyExactlyOne(batch) => Some(batch),
        SqliteTransactionStep::RequireNoRowsMany(batch) => Some(batch),
        _ => None,
    };
    match batch {
        Some(batch) => match batch.listed() {
            SqliteBatchRows::Each(rows) => Some((batch, rows@)),
            SqliteBatchRows::Bulk { .. } => None,
        },
        None => None,
    }
}

/// Whether a statement with `expected` parameters takes every parameter set of a step.
pub open spec fn takes_all(step: SqliteTransactionStep, expected: usize) -> bool {
    parameter_sets(step) matches Some((batch, rows)) ==> {
        &&& batch.shared().len() <= expected
        &&& batch.shared().len() < usize::MAX
        &&& forall|r: int|
            0 <= r < rows.len() ==> batch.shared().len() + (#[trigger] rows[r])@.len() == expected
    }
}

/// Whether the parameter count that a state remembers is that of its parameter sets.
pub open spec fn counts_agree(state: TransactionState, steps: Seq<SqliteTransactionStep>) -> bool {
    match state {
        TransactionState::BindingShared { step, expected, .. } => takes_all(steps[step as int], expected),
        TransactionState::BindingRow { step, expected, .. } => takes_all(steps[step as int], expected),
        TransactionState::RunningRow { step, expected, .. } => takes_all(steps[step as int], expected),
        _ => true,
    }
}

/// Whether an answer is nothing to stop for: no failure, no broken requirement, enough
/// variables, and a transaction that is open until it is committed.
pub open spec fn is_good_answer(
    state: TransactionState,
    steps: Seq<SqliteTransactionStep>,
    reply: TransactionReply,
) -> bool {
    match reply {
        TransactionReply::Done(result) => result is Ok,
        TransactionReply::Count(result) => match state {
            TransactionState::Preparing { step } => result matches Ok(expected) && takes_all(
                steps[step as int],
                expected,
            ),
            TransactionState::RunningRow { step, .. } => result matches Ok(rows) && (
            steps[step as int] is ExecuteManyExactlyOne ==> rows == 1),
            _ => false,
        },
        TransactionReply::Found(result) => result matches Ok(found) && !found,
        TransactionReply::FirstRow(reply) => reply is Absent,
        TransactionReply::Limit(result) => {
            &&& result matches Ok(limit)
            &&& state matches TransactionState::ReadingVariableLimit { step }
            &&& steps[step as int] matches SqliteTransactionStep::ExecuteMany(batch)
            &&& batch.listed() matches SqliteBatchRows::Bulk { row_parameter_count, .. }
            &&& 0 < row_parameter_count
            &&& batch.shared().len() + row_parameter_count <= limit
        },
        TransactionReply::Autocommit(autocommit) => autocommit == state is CheckingCommit,
    }
}

/// Whether a run is still on its way to success.
pub open spec fn is_on_its_way(state: TransactionState) -> bool {
    match state {
        TransactionState::RollingBack { .. } => false,
        TransactionState::CheckingRollback { .. } => false,
        TransactionState::CheckingCommit { failure } => failure is None,
        TransactionState::Finished { result } => result is Ok,
        _ => true,
    }
}

/// As long as nothing stops it a transaction goes on, so that a plan whose answers are all
/// good succeeds.
pub proof fn good_answers_lead_to_success(
    state: TransactionState,
    steps: Seq<SqliteTransactionStep>,
    reply: TransactionReply,
    cancelled: bool,
    next: TransactionState,
)
    requires
        state.fits(steps),
        steps.len() <= usize::MAX,
        state.leads_to(steps, reply, cancelled, next),
        is_on_its_way(state),
        counts_agree(state, steps),
        is_good_answer(state, steps, reply),
    ensures
        is_on_its_way(next),
        counts_agree(next, steps),
{
    if let Some(step) = state.step() {
        sqlite_plan::lemma_batch_sizes(sqlite_transaction::batch_of(steps[step])->0);
        if let Some((batch, rows)) = parameter_sets(steps[step]) {
            assert(sqlite_transaction::rows_of(batch) == rows);
        }
    }
    match (state, reply) {
        (TransactionState::ReadingVariableLimit { step }, TransactionReply::Limit(Ok(limit))) => {
            if let SqliteTransactionStep::ExecuteMany(batch) = steps[step as int] {
                if let SqliteBatchRows::Bulk { row_parameter_count: width, .. } = batch.listed() {
                    let free = limit - batch.shared().len();
                    assert(free / width as int >= 1) by (nonlinear_arith)
                        requires
                            free >= width,
                            width > 0,
                    ;
                }
            }
        },
        _ => {},
    }
}

/// A transaction is rolled back for a broken requirement exactly when a row was found that
/// must not be there, or not exactly one row changed where one had to; the row that a
/// requirement gives back is the one that was found, under the requirement's own name.
pub proof fn requirements_fail_exactly_when_broken(
    state: TransactionState,
    steps: Seq<SqliteTransactionStep>,
    reply: TransactionReply,
    cancelled: bool,
    next: TransactionState,
)
    requires
        state.fits(steps),
        state.leads_to(steps, reply, cancelled, next),
    ensures
        next == (TransactionState::RollingBack { cause: RollbackCause::Requirement }) <==> ({
            ||| reply == TransactionReply::Found(Ok(true))
            ||| state matches TransactionState::RunningRow { step, .. } && steps[step as int]
                is ExecuteManyExactlyOne && (reply matches TransactionReply::Count(Ok(rows)) && rows != 1)
        }),
        next matches TransactionState::RollingBack {
            cause: RollbackCause::RequirementWithRow { query_id, row },
        } ==> {
            &&& reply matches TransactionReply::FirstRow(FirstRowReply::Row(columns))
            &&& state matches TransactionState::Running { step }
            &&& steps[step as int] matches SqliteTransactionStep::RequireNoRowsReturningFirstRow(query)
            &&& query_id@ == query.named()
            &&& row.columns().len() == columns@.len()
            &&& forall|c: int|
                0 <= c < columns@.len() ==> (#[trigger] columns@[c]) is Ok && holds_the_same(
                    columns@[c]->Ok_0,
                    row.columns()[c],
                )
        },
        reply matches TransactionReply::FirstRow(FirstRowReply::Row(columns)) ==> (if all_readable(
            columns@,
        ) {
            next matches TransactionState::RollingBack { cause } && cause is RequirementWithRow
        } else {
            next matches TransactionState::RollingBack { cause } && cause is Failure
        }),
{
    if let Some(step) = state.step() {
        sqlite_plan::lemma_batch_sizes(sqlite_transaction::batch_of(steps[step])->0);
    }
    if let TransactionReply::FirstRow(FirstRowReply::Row(columns)) = reply {
        if let TransactionState::RollingBack {
            cause: RollbackCause::RequirementWithRow { row, .. },
        } = next {
            rows_hold_what_was_read(columns@, cancelled, Ok(row));
        } else if let TransactionState::RollingBack { cause: RollbackCause::Failure(error) } = next {
            rows_hold_what_was_read(columns@, cancelled, Err(error));
        }
    }
}

/// Whether every column could be read, and every text is one.
pub open spec fn all_readable(columns: Seq<Result<SqliteColumn, SqliteDriverError>>) -> bool {
    forall|c: int|
        0 <= c < columns.len() ==> (#[trigger] columns[c]) is Ok && (columns[c]->Ok_0 matches
            SqliteColumn::Text(bytes) ==> vstd::utf8::valid_utf8(bytes@))
}

/// A row can be read exactly when all its columns can, and then it holds them, each in its
/// place.
pub proof fn rows_hold_what_was_read(
    columns: Seq<Result<SqliteColumn, SqliteDriverError>>,
    cancelled: bool,
    result: Result<sqlite_plan::SqliteRow, SqliteRuntimeError>,
)
    requires
        sqlite_row::row_read(columns, cancelled, result),
    ensures
        result is Ok <==> all_readable(columns),
        result matches Ok(row) ==> {
            &&& row.columns().len() == columns.len()
            &&& forall|c: int|
                0 <= c < columns.len() ==> (#[trigger] columns[c]) is Ok && holds_the_same(
                    columns[c]->Ok_0,
                    row.columns()[c],
                )
        },
{
    let bad = sqlite_row::unreadable(columns, cancelled);
    search::lemma_first_meaning(bad, 0, columns.len() as int);
    match search::first_such(bad, 0, columns.len() as int) {
        Some(i) => {
            assert(bad(i));
            assert(!(columns[i] is Ok && (columns[i]->Ok_0 matches SqliteColumn::Text(bytes)
                ==> vstd::utf8::valid_utf8(bytes@))));
        },
        None => {
            assert forall|c: int| 0 <= c < columns.len() implies (#[trigger] columns[c]) is Ok && (
            columns[c]->Ok_0 matches SqliteColumn::Text(bytes) ==> vstd::utf8::valid_utf8(bytes@)) by {
                assert(!bad(c));
            }
            if let Ok(row) = result {
                assert forall|c: int| 0 <= c < columns.len() implies (#[trigger] columns[c]) is Ok
                    && holds_the_same(columns[c]->Ok_0, row.columns()[c]) by {
                    assert(sqlite_row::is_read_as(columns[c], row.columns()[c]));
                }
            }
        },
    }
}

/// Whether a value is what the driver gave for a column.
pub open spec fn holds_the_same(
    column: SqliteColumn,
    value: SqliteValue,
) -> bool {
    match (column, value) {
        (SqliteColumn::Null, SqliteValue::Null) => true,
        (SqliteColumn::Integer(a), SqliteValue::Integer(b)) => a == b,
        (SqliteColumn::Real(a), SqliteValue::Real(b)) => a == b,
        (SqliteColumn::Text(bytes), SqliteValue::Text(text)) => text@
            == vstd::utf8::decode_utf8(bytes@),
        (SqliteColumn::Blob(a), SqliteValue::Blob(b)) => a@ == b@,
        _ => false,
    }
}

/// Whether the driver says that a lock of someone else was in the way.
pub open spec fn says_locked(source: SqliteDriverError) -> bool {
    source.cause matches SqliteDriverCause::SqliteFailure { extended_code } && (
    extended_code & 0xff == 5 || extended_code & 0xff == 6)
}

/// A failure of the driver is told as what it was, with the operation that failed; only a
/// lock that was no longer waited for is a cancellation.
pub proof fn driver_failures_are_told_as_they_are(
    operation: &'static str,
    source: SqliteDriverError,
    cancelled: bool,
)
    ensures
        match SqliteRuntimeError::of_driver(operation, source, cancelled) {
            SqliteRuntimeError::Cancelled { operation: o } => o == operation
                && cancelled && says_locked(source),
            SqliteRuntimeError::Driver { operation: o, source: s } => o == operation
                && s == source && !(cancelled && says_locked(source)),
            _ => false,
        },
{
}

/// A failed answer is the failure for which the transaction is rolled back; the commit is
/// rolled back only where the transaction is still open.
pub proof fn failures_are_rolled_back(
    state: TransactionState,
    steps: Seq<SqliteTransactionStep>,
    reply: TransactionReply,
    cancelled: bool,
    next: TransactionState,
)
    requires
        state.fits(steps),
        state.leads_to(steps, reply, cancelled, next),
    ensures
        ({
            let source = match reply {
                TransactionReply::Done(Err(source)) => Some(source),
                TransactionReply::Count(Err(source)) => Some(source),
                TransactionReply::Found(Err(source)) => Some(source),
                TransactionReply::Limit(Err(source)) => Some(source),
                TransactionReply::FirstRow(FirstRowReply::BindFailed(source)) => Some(source),
                TransactionReply::FirstRow(FirstRowReply::StepFailed(source)) => Some(source),
                _ => None,
            };
            source matches Some(source) ==> match state {
                TransactionState::Beginning => next matches TransactionState::Finished {
                    result: Err(ExecuteTransactionError::NotCommitted(error)),
                } && tells_of(error, source, cancelled),
                TransactionState::Committing => next matches TransactionState::CheckingCommit {
                    failure: Some(error),
                } && tells_of(error, source, cancelled),
                TransactionState::RollingBack { .. } => next is Finished,
                _ => next matches TransactionState::RollingBack { cause: RollbackCause::Failure(error) }
                    && tells_of(error, source, cancelled),
            }
        }),
        state matches TransactionState::CheckingCommit { failure: Some(error) } ==> (
        if reply == TransactionReply::Autocommit(true) {
            next == (TransactionState::Finished {
                result: Err(ExecuteTransactionError::OutcomeUnknown(error)),
            })
        } else {
            next == (TransactionState::RollingBack { cause: RollbackCause::Failure(error) })
        }),
{
}

/// Whether an error tells of the driver's failure, or of the cancellation behind it.
pub open spec fn tells_of(
    error: SqliteRuntimeError,
    source: SqliteDriverError,
    cancelled: bool,
) -> bool {
    match error {
        SqliteRuntimeError::Cancelled { .. } => cancelled && says_locked(source),
        SqliteRuntimeError::Driver { source: s, .. } => s == source && !(cancelled
            && says_locked(source)),
        _ => false,
    }
}

/// After a ROLLBACK that certainly took place the transaction is told as undone, for the
/// reason that it was rolled back for; after any other its outcome is told as unknown, and
/// the reason is still told.
pub proof fn rollbacks_tell_their_reason(
    state: TransactionState,
    steps: Seq<SqliteTransactionStep>,
    reply: TransactionReply,
    cancelled: bool,
    next: TransactionState,
)
    requires
        state.leads_to(steps, reply, cancelled, next),
    ensures
        state matches TransactionState::RollingBack { cause } ==> (if reply matches
            TransactionReply::Done(Ok(_)) {
            next == (TransactionState::CheckingRollback { cause })
        } else {
            next matches TransactionState::Finished { result: Err(error) } && leaves_doubt(cause, error)
        }),
        state matches TransactionState::CheckingRollback { cause } ==> {
            &&& next matches TransactionState::Finished { result: Err(error) }
            &&& if reply == TransactionReply::Autocommit(true) {
                match cause {
                    RollbackCause::Failure(primary) => error == ExecuteTransactionError::NotCommitted(
                        primary,
                    ),
                    RollbackCause::Requirement => error == ExecuteTransactionError::RequirementFailed,
                    RollbackCause::RequirementWithRow { query_id, row } => error == (
                    ExecuteTransactionError::RequirementFailedWithRow { query_id, row }),
                }
            } else {
                leaves_doubt(cause, error)
            }
        },
{
}

/// Whether an error tells that the outcome is unknown, and what was rolled back for.
pub open spec fn leaves_doubt(cause: RollbackCause, error: ExecuteTransactionError) -> bool {
    match cause {
        RollbackCause::Failure(primary) => {
            &&& error matches ExecuteTransactionError::OutcomeUnknown(source)
            &&& source matches SqliteRuntimeError::Cleanup { primary: p, failures }
            &&& *p == primary
            &&& failures@.len() == 1
        },
        RollbackCause::Requirement => error is OutcomeUnknown,
        RollbackCause::RequirementWithRow { query_id, row } => error matches
            ExecuteTransactionError::RequirementFailedWithRowOutcomeUnknown {
            query_id: q,
            row: r,
            ..
        } && q == query_id && r == row,
    }
}

} // verus!
