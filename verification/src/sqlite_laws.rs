//! What holds of every transaction, whatever the connection answers.

use vstd::prelude::*;
use crate::sqlite_bulk;
use crate::sqlite_plan;
use crate::sqlite_plan::SqliteTransactionStep;
use crate::sqlite_transaction;
use crate::sqlite_transaction::{ExecuteTransactionError, TransactionReply, TransactionState};

verus! {

/// A transaction succeeds only when COMMIT succeeded and no transaction is open
/// afterwards.
pub proof fn success_is_a_confirmed_commit(
    state: TransactionState,
    steps: Seq<SqliteTransactionStep>,
    reply: TransactionReply,
    cancelled: bool,
    next: TransactionState,
)
    requires
        state.leads_to(steps, reply, cancelled, next),
    ensures
        next == (TransactionState::Finished { result: Ok(()) }) ==> state == (
        TransactionState::CheckingCommit { failure: None }) && reply == TransactionReply::Autocommit(true),
        next == (TransactionState::CheckingCommit { failure: None }) ==> state
            == TransactionState::Committing && reply matches TransactionReply::Done(Ok(_)),
{
    lemma_ordinary_states(state, steps, reply, cancelled, next);
}

/// COMMIT comes only after the last step, and only while the transaction is still open.
pub proof fn commit_follows_every_step(
    state: TransactionState,
    steps: Seq<SqliteTransactionStep>,
    reply: TransactionReply,
    cancelled: bool,
    next: TransactionState,
)
    requires
        state.leads_to(steps, reply, cancelled, next),
        next == TransactionState::Committing,
    ensures
        match state {
            TransactionState::Beginning => steps.len() == 0 && reply matches TransactionReply::Done(Ok(_)),
            TransactionState::CheckingStep { step } => step + 1 >= steps.len() && reply
                == TransactionReply::Autocommit(false),
            _ => false,
        },
{
    lemma_ordinary_states(state, steps, reply, cancelled, next);
}

/// A transaction that reports its work as undone either never began or has a ROLLBACK that
/// succeeded and left no transaction open.
pub proof fn undone_work_was_rolled_back(
    state: TransactionState,
    steps: Seq<SqliteTransactionStep>,
    reply: TransactionReply,
    cancelled: bool,
    next: TransactionState,
)
    requires
        state.leads_to(steps, reply, cancelled, next),
        next matches TransactionState::Finished { result: Err(error) } && (error is NotCommitted || error
            is RequirementFailed || error is RequirementFailedWithRow),
    ensures
        match state {
            TransactionState::Beginning => reply matches TransactionReply::Done(Err(_)),
            TransactionState::CheckingRollback { .. } => reply == TransactionReply::Autocommit(true),
            _ => false,
        },
        next matches TransactionState::Finished {
            result: Err(ExecuteTransactionError::NotCommitted(error)),
        } ==> state is Beginning || state == (TransactionState::CheckingRollback {
            cause: sqlite_transaction::RollbackCause::Failure(error),
        }),
{
    lemma_ordinary_states(state, steps, reply, cancelled, next);
}

/// Where the steps of batches lead.
proof fn lemma_ordinary_states(
    state: TransactionState,
    steps: Seq<SqliteTransactionStep>,
    reply: TransactionReply,
    cancelled: bool,
    next: TransactionState,
)
    requires
        state.leads_to(steps, reply, cancelled, next),
    ensures
        match state {
            TransactionState::BindingShared { .. } => is_inner(next),
            TransactionState::BindingRow { .. } => is_inner(next),
            TransactionState::RunningRow { .. } => is_inner(next),
            TransactionState::Preparing { .. } => is_inner(next),
            TransactionState::Running { .. } => is_inner(next),
            TransactionState::ReadingVariableLimit { .. } => is_inner(next),
            TransactionState::PreparingInsert { .. } => is_inner(next),
            TransactionState::RunningInsert { .. } => is_inner(next),
            _ => true,
        },
{
}

spec fn is_inner(state: TransactionState) -> bool {
    &&& !(state is Finished)
    &&& !(state is Committing)
    &&& !(state is CheckingCommit)
    &&& !(state is CheckingRollback)
    &&& !(state is Beginning)
}

/// A run of a transaction: its states, and what the connection answered in each of them
/// but the last.
pub ghost struct Trace {
    pub states: Seq<TransactionState>,
    pub replies: Seq<TransactionReply>,
    pub cancelled: Seq<bool>,
}

impl Trace {
    /// Whether the run starts at the beginning and every state follows from the one before.
    pub open spec fn is_run(self, steps: Seq<SqliteTransactionStep>) -> bool {
        &&& self.states.len() == self.replies.len() + 1
        &&& self.states.len() == self.cancelled.len() + 1
        &&& self.states[0] == TransactionState::Beginning
        &&& forall|i: int|
            0 <= i < self.replies.len() ==> #[trigger] self.follows(steps, i)
    }

    pub open spec fn follows(self, steps: Seq<SqliteTransactionStep>, i: int) -> bool {
        &&& self.states[i].fits(steps)
        &&& self.states[i].leads_to(steps, self.replies[i], self.cancelled[i], self.states[i + 1])
    }

    /// Whether step `step` was found done at place `i`, with the transaction still open.
    pub open spec fn is_passed(self, i: int, step: int) -> bool {
        &&& self.states[i] == (TransactionState::CheckingStep { step: step as usize })
        &&& self.replies[i] == TransactionReply::Autocommit(false)
    }

    /// Whether the first `count` steps were passed before place `end`, one after another.
    pub open spec fn passed(self, end: int, count: int) -> bool
        decreases count,
    {
        count <= 0 || exists|i: int|
            0 <= i < end && #[trigger] self.is_passed(i, count - 1) && self.passed(i, count - 1)
    }
}

/// The number of steps that lie behind a state.
pub open spec fn steps_behind(state: TransactionState, steps: Seq<SqliteTransactionStep>) -> int {
    match state {
        TransactionState::Beginning => 0,
        TransactionState::Committing => steps.len() as int,
        TransactionState::CheckingCommit { failure: None } => steps.len() as int,
        TransactionState::Finished { result: Ok(()) } => steps.len() as int,
        _ => match state.step() {
            Some(step) => step,
            None => 0,
        },
    }
}

/// A transaction that succeeds has passed all its steps, in the order of the plan.
pub proof fn a_success_passed_every_step(steps: Seq<SqliteTransactionStep>, trace: Trace, end: int)
    requires
        trace.is_run(steps),
        steps.len() <= usize::MAX,
        0 <= end < trace.states.len(),
    ensures
        trace.passed(end, steps_behind(trace.states[end], steps)),
        trace.states[end] == (TransactionState::Finished { result: Ok(()) }) ==> trace.passed(
            end,
            steps.len() as int,
        ),
    decreases end,
{
    if end > 0 {
        let i = end - 1;
        let state = trace.states[i];
        let next = trace.states[end];
        let reply = trace.replies[i];
        let cancelled = trace.cancelled[i];
        a_success_passed_every_step(steps, trace, i);
        assert(trace.follows(steps, i));
        lemma_steps_behind(state, steps, reply, cancelled, next);
        let behind = steps_behind(state, steps);
        if steps_behind(next, steps) == behind + 1 && state is CheckingStep {
            let count = behind + 1;
            assert(trace.is_passed(i, count - 1) && trace.passed(i, count - 1));
            assert(trace.passed(end, count));
        } else if steps_behind(next, steps) > 0 {
            assert(steps_behind(next, steps) == behind);
            assert(trace.passed(i, behind));
            let k = choose|k: int|
                0 <= k < i && #[trigger] trace.is_passed(k, behind - 1) && trace.passed(k, behind - 1);
            assert(trace.is_passed(k, behind - 1));
            assert(trace.passed(end, behind));
        }
    }
}

proof fn lemma_steps_behind(
    state: TransactionState,
    steps: Seq<SqliteTransactionStep>,
    reply: TransactionReply,
    cancelled: bool,
    next: TransactionState,
)
    requires
        state.fits(steps),
        steps.len() <= usize::MAX,
        state.leads_to(steps, reply, cancelled, next),
    ensures
        steps_behind(next, steps) == 0 || steps_behind(next, steps) == steps_behind(state, steps) || (
        state is CheckingStep && reply == TransactionReply::Autocommit(false) && steps_behind(next, steps)
            == steps_behind(state, steps) + 1),
{
}

/// How far a transaction is from its end: each later number counts only while the earlier
/// ones stay the same.
pub open spec fn distance(state: TransactionState, steps: Seq<SqliteTransactionStep>) -> (
    nat,
    nat,
    nat,
    nat,
    nat,
) {
    let stage: nat = match state {
        TransactionState::Beginning => 6,
        TransactionState::Committing => 4,
        TransactionState::CheckingCommit { .. } => 3,
        TransactionState::RollingBack { .. } => 2,
        TransactionState::CheckingRollback { .. } => 1,
        TransactionState::Finished { .. } => 0,
        _ => 5,
    };
    let left: nat = match state.step() {
        Some(step) => (steps.len() - step) as nat,
        None => 0,
    };
    let (phase, rows, values): (nat, nat, nat) = match state {
        TransactionState::Preparing { .. } => (3, 0, 0),
        TransactionState::ReadingVariableLimit { .. } => (3, 0, 0),
        TransactionState::BindingShared { step, next, .. } => (
            2,
            (sqlite_transaction::batch_of(steps[step as int])->0.shared().len() - next) as nat,
            0,
        ),
        TransactionState::BindingRow { step, row, next, .. } => {
            let listed = sqlite_transaction::rows_of(
                sqlite_transaction::batch_of(steps[step as int])->0,
            );
            (1, (listed.len() - row) as nat, (listed[row as int]@.len() - next + 1) as nat)
        },
        TransactionState::RunningRow { step, row, .. } => {
            let listed = sqlite_transaction::rows_of(
                sqlite_transaction::batch_of(steps[step as int])->0,
            );
            (1, (listed.len() - row) as nat, 0)
        },
        TransactionState::PreparingInsert { layout, start, .. } => (
            1,
            (layout.values() - start) as nat,
            1,
        ),
        TransactionState::RunningInsert { layout, start, .. } => (
            1,
            (layout.values() - start) as nat,
            0,
        ),
        TransactionState::Running { .. } => (1, 0, 0),
        _ => (0, 0, 0),
    };
    (stage, left, phase, rows, values)
}

/// Whether `to` is nearer to the end than `from`.
pub open spec fn is_nearer(from: (nat, nat, nat, nat, nat), to: (nat, nat, nat, nat, nat)) -> bool {
    decreases_to!(from.0, from.1, from.2, from.3, from.4 => to.0, to.1, to.2, to.3, to.4)
}

/// Every answer brings a transaction nearer to its end, so that it ends after finitely many.
pub proof fn transactions_come_to_an_end(
    state: TransactionState,
    steps: Seq<SqliteTransactionStep>,
    reply: TransactionReply,
    cancelled: bool,
    next: TransactionState,
)
    requires
        state.fits(steps),
        steps.len() <= usize::MAX,
        state.leads_to(steps, reply, cancelled, next),
    ensures
        is_nearer(distance(state, steps), distance(next, steps)),
{
    if let Some(step) = state.step() {
        sqlite_plan::lemma_batch_sizes(sqlite_transaction::batch_of(steps[step])->0);
    }
    if let TransactionState::RunningInsert { layout, start, .. } = state {
        sqlite_bulk::bulk_statements_cover_all_rows(layout, start as int);
    }
}

} // verus!
