//! A session of transactions on one connection, and the one place for such a session.

use vstd::prelude::*;
use vstd::string::*;
use crate::performance::{RunPerformanceCounters, SqliteTransactionControl, SqliteTransactionScope};
use crate::sqlite_error::{SqliteDriverError, SqliteRuntimeError};
use crate::sqlite_open::{ExistingFileError, ExistingFileErrorOrRuntime};
use crate::sqlite_plan;
use crate::sqlite_plan::SqliteTransactionPlan;
use crate::sqlite_transaction;
use crate::sqlite_transaction::{
    execute_transaction_control, run_transaction, ExecuteTransactionError, TransactionRun,
    TransactionState,
};

verus! {

pub const SESSION_OPEN: u8 = 0;

pub const SESSION_INDETERMINATE: u8 = 1;

pub const SESSION_FINALIZING: u8 = 2;

pub const SESSION_CLOSED: u8 = 3;

/// Whether a session in this part of its life takes another transaction.
pub open spec fn admission(lifecycle: u8) -> Result<(), ExecuteTransactionError> {
    if lifecycle == SESSION_OPEN {
        Ok(())
    } else if lifecycle == SESSION_INDETERMINATE {
        Err(
            ExecuteTransactionError::OutcomeUnknown(
                SqliteRuntimeError::Internal("事务计划会话已经处于结果未知状态"),
            ),
        )
    } else if lifecycle == SESSION_FINALIZING || lifecycle == SESSION_CLOSED {
        Err(ExecuteTransactionError::NotCommitted(SqliteRuntimeError::Closed))
    } else {
        Err(
            ExecuteTransactionError::NotCommitted(
                SqliteRuntimeError::Internal("事务计划会话生命周期值无效"),
            ),
        )
    }
}

pub fn await_transaction(lifecycle: u8) -> (result: Result<(), ExecuteTransactionError>)
    ensures
        result == admission(lifecycle),
{
    if lifecycle == SESSION_OPEN {
        Ok(())
    } else if lifecycle == SESSION_INDETERMINATE {
        Err(
            ExecuteTransactionError::OutcomeUnknown(
                SqliteRuntimeError::Internal("事务计划会话已经处于结果未知状态"),
            ),
        )
    } else if lifecycle == SESSION_FINALIZING || lifecycle == SESSION_CLOSED {
        Err(ExecuteTransactionError::NotCommitted(SqliteRuntimeError::Closed))
    } else {
        Err(
            ExecuteTransactionError::NotCommitted(
                SqliteRuntimeError::Internal("事务计划会话生命周期值无效"),
            ),
        )
    }
}

/// What is known of a plan whose answer never came.
pub open spec fn lost(handed_over: bool) -> ExecuteTransactionError {
    if handed_over {
        ExecuteTransactionError::OutcomeUnknown(SqliteRuntimeError::WorkerPanicked("交互式 actor"))
    } else {
        ExecuteTransactionError::NotCommitted(SqliteRuntimeError::Closed)
    }
}

/// What a transaction reports that did not come back from the session: one that was never
/// handed over was not committed, and of the other nothing is known.
pub fn lost_transaction(handed_over: bool) -> (error: ExecuteTransactionError)
    ensures
        error == lost(handed_over),
{
    if handed_over {
        ExecuteTransactionError::OutcomeUnknown(SqliteRuntimeError::WorkerPanicked("交互式 actor"))
    } else {
        ExecuteTransactionError::NotCommitted(SqliteRuntimeError::Closed)
    }
}

#[derive(Clone, Copy, Debug, PartialEq, Eq, Structural)]
pub enum TransactionSessionState {
    Ready,
    Indeterminate,
}

/// What becomes of a command of a session.
#[derive(Debug, PartialEq, Eq)]
pub enum SessionCommand<'a> {
    /// The session no longer runs anything.
    Refused(ExecuteTransactionError),
    /// The plan does not run, and the session takes note of why.
    NotRun(ExecuteTransactionError),
    Run(TransactionRun<'a>),
}

/// The state of a session on a connection that was just opened.
pub open spec fn first_state(autocommit: bool) -> TransactionSessionState {
    if autocommit {
        TransactionSessionState::Ready
    } else {
        TransactionSessionState::Indeterminate
    }
}

impl TransactionSessionState {
    pub fn initial(autocommit: bool) -> (state: Self)
        ensures
            state == first_state(autocommit),
    {
        if autocommit {
            TransactionSessionState::Ready
        } else {
            TransactionSessionState::Indeterminate
        }
    }

    /// Whether and how a plan runs; `autocommit` is whether no transaction is open.
    pub fn process_transaction_session_command<'a>(
        self,
        autocommit: bool,
        plan: &'a SqliteTransactionPlan,
    ) -> (command: SessionCommand<'a>)
        ensures
            is_command(self, autocommit, *plan, command),
    {
        if self == TransactionSessionState::Indeterminate {
            return SessionCommand::Refused(
                ExecuteTransactionError::OutcomeUnknown(
                    SqliteRuntimeError::Internal("事务计划会话已经处于结果未知状态"),
                ),
            );
        }
        if !autocommit {
            return SessionCommand::NotRun(
                ExecuteTransactionError::NotCommitted(
                    SqliteRuntimeError::Internal("活动事务中不能执行完整事务计划"),
                ),
            );
        }
        match run_transaction(plan) {
            Ok(run) => SessionCommand::Run(run),
            Err(error) => SessionCommand::NotRun(error),
        }
    }
}

/// Whether `command` is what becomes of a plan in this state.
pub open spec fn is_command(
    state: TransactionSessionState,
    autocommit: bool,
    plan: SqliteTransactionPlan,
    command: SessionCommand<'_>,
) -> bool {
    if refusal(state) is Some {
        command == SessionCommand::Refused(refusal(state)->0)
    } else if !autocommit {
        command == SessionCommand::NotRun(
            ExecuteTransactionError::NotCommitted(
                SqliteRuntimeError::Internal("活动事务中不能执行完整事务计划"),
            ),
        )
    } else {
        match sqlite_plan::plan_fault(plan) {
            Some(error) => command == SessionCommand::NotRun(
                ExecuteTransactionError::NotCommitted(error),
            ),
            None => command matches SessionCommand::Run(run) && run.steps() == plan.planned()
                && run.at() == TransactionState::Beginning,
        }
    }
}

/// The part of its life that a session is in after a plan.
pub open spec fn life_after(life: u8, result: Result<(), ExecuteTransactionError>, autocommit: bool) -> u8 {
    if is_certain(result) && autocommit {
        life
    } else {
        SESSION_INDETERMINATE
    }
}

/// Whether a result says for certain what became of the transaction.
pub open spec fn is_certain(result: Result<(), ExecuteTransactionError>) -> bool {
    match result {
        Ok(_) => true,
        Err(ExecuteTransactionError::RequirementFailed) => true,
        Err(ExecuteTransactionError::RequirementFailedWithRow { .. }) => true,
        Err(ExecuteTransactionError::NotCommitted(_)) => true,
        Err(_) => false,
    }
}

/// The state of a session after a plan.
pub open spec fn state_after(result: Result<(), ExecuteTransactionError>, autocommit: bool) -> TransactionSessionState {
    if is_certain(result) && autocommit {
        TransactionSessionState::Ready
    } else {
        TransactionSessionState::Indeterminate
    }
}

/// Why a session runs nothing any more.
pub open spec fn refusal(state: TransactionSessionState) -> Option<ExecuteTransactionError> {
    match state {
        TransactionSessionState::Ready => None,
        TransactionSessionState::Indeterminate => Some(
            ExecuteTransactionError::OutcomeUnknown(
                SqliteRuntimeError::Internal("事务计划会话已经处于结果未知状态"),
            ),
        ),
    }
}

/// The life of a session, shared by those who use it and those who end it.
#[derive(Debug, PartialEq, Eq, Structural)]
pub struct InteractiveSessionControl {
    lifecycle: u8,
    ending: bool,
}

impl InteractiveSessionControl {
    pub closed spec fn life(&self) -> u8 {
        self.lifecycle
    }

    /// Whether the session has been told to end.
    pub closed spec fn is_ending(&self) -> bool {
        self.ending
    }

    pub fn new() -> (control: Self)
        ensures
            control.life() == SESSION_OPEN,
            !control.is_ending(),
    {
        InteractiveSessionControl { lifecycle: SESSION_OPEN, ending: false }
    }

    pub fn lifecycle(&self) -> (lifecycle: u8)
        ensures
            lifecycle == self.life(),
    {
        self.lifecycle
    }

    /// Takes note of how a plan ended; `autocommit` is whether no transaction is open now.
    /// A session whose outcome is uncertain runs nothing any more.
    pub fn complete_command(
        &mut self,
        result: &Result<(), ExecuteTransactionError>,
        autocommit: bool,
    ) -> (state: TransactionSessionState)
        ensures
            state == state_after(*result, autocommit),
            final(self).life() == life_after(old(self).life(), *result, autocommit),
            final(self).is_ending() == old(self).is_ending(),
    {
        let certain = match result {
            Ok(()) => true,
            Err(ExecuteTransactionError::RequirementFailed) => true,
            Err(ExecuteTransactionError::RequirementFailedWithRow { .. }) => true,
            Err(ExecuteTransactionError::NotCommitted(_)) => true,
            Err(_) => false,
        };
        if certain && autocommit {
            TransactionSessionState::Ready
        } else {
            self.lifecycle = SESSION_INDETERMINATE;
            TransactionSessionState::Indeterminate
        }
    }

    /// Tells the session to end. Only the first call does; it says so.
    pub fn initiate(&mut self) -> (first: bool)
        ensures
            first == !old(self).is_ending(),
            final(self).is_ending(),
            final(self).life() == (if first {
                SESSION_FINALIZING
            } else {
                old(self).life()
            }),
    {
        if self.ending {
            return false;
        }
        self.ending = true;
        self.lifecycle = SESSION_FINALIZING;
        true
    }

    /// The connection is closed.
    pub fn close(&mut self)
        ensures
            final(self).life() == SESSION_CLOSED,
            final(self).is_ending() == old(self).is_ending(),
    {
        self.lifecycle = SESSION_CLOSED;
    }
}

/// How a session was ended.
#[derive(Clone, Copy, Debug, PartialEq, Eq, Structural)]
pub struct SqliteInteractiveSessionFinalization {
    pub had_unclosed_transaction: bool,
}

#[derive(Debug, PartialEq, Eq)]
pub enum SqliteInteractiveSessionFinalizationFailure {
    OutcomeUnknown(SqliteRuntimeError),
    CleanupFailed(SqliteRuntimeError),
}

#[derive(Debug, PartialEq, Eq)]
pub struct SqliteInteractiveSessionFinalizationError {
    pub primary: SqliteInteractiveSessionFinalizationFailure,
    pub connection_close: Option<SqliteRuntimeError>,
}

/// The rollback at the end of a session, if a transaction was open: its result, and
/// whether no transaction is open afterwards.
#[derive(Debug, PartialEq, Eq)]
pub enum FinalRollback {
    NotNeeded,
    Tried { outcome: Result<(), SqliteDriverError>, autocommit: bool },
}

/// What went wrong with the rollback at the end of a session.
pub open spec fn final_rollback_failure(rollback: FinalRollback, cancelled: bool) -> Option<
    SqliteInteractiveSessionFinalizationFailure,
> {
    match rollback {
        FinalRollback::NotNeeded => None,
        FinalRollback::Tried { outcome: Ok(_), autocommit } => if autocommit {
            None
        } else {
            Some(
                SqliteInteractiveSessionFinalizationFailure::OutcomeUnknown(
                    SqliteRuntimeError::Internal("回滚成功后交互式连接仍非 autocommit"),
                ),
            )
        },
        FinalRollback::Tried { outcome: Err(source), autocommit } => {
            let error = SqliteRuntimeError::of_driver("终结交互式事务", source, cancelled);
            if autocommit {
                Some(SqliteInteractiveSessionFinalizationFailure::OutcomeUnknown(error))
            } else {
                Some(SqliteInteractiveSessionFinalizationFailure::CleanupFailed(error))
            }
        },
    }
}

/// How a session ends, from its rollback and the closing of its connection.
pub open spec fn finalized(
    rollback: FinalRollback,
    close: Result<(), SqliteDriverError>,
    cancelled: bool,
) -> Result<SqliteInteractiveSessionFinalization, SqliteInteractiveSessionFinalizationError> {
    let unclosed = match close {
        Ok(_) => None,
        Err(source) => Some(SqliteRuntimeError::of_driver("关闭交互式连接", source, cancelled)),
    };
    match (final_rollback_failure(rollback, cancelled), unclosed) {
        (None, None) => Ok(
            SqliteInteractiveSessionFinalization {
                had_unclosed_transaction: rollback is Tried,
            },
        ),
        (None, Some(source)) => Err(
            SqliteInteractiveSessionFinalizationError {
                primary: SqliteInteractiveSessionFinalizationFailure::CleanupFailed(source),
                connection_close: None,
            },
        ),
        (Some(primary), connection_close) => Err(
            SqliteInteractiveSessionFinalizationError { primary, connection_close },
        ),
    }
}

pub fn finalize_interactive_connection(
    rollback: FinalRollback,
    close: Result<(), SqliteDriverError>,
    cancelled: bool,
    control: &mut InteractiveSessionControl,
    performance: &mut RunPerformanceCounters,
) -> (result: Result<
    SqliteInteractiveSessionFinalization,
    SqliteInteractiveSessionFinalizationError,
>)
    ensures
        result == finalized(rollback, close, cancelled),
        final(control).life() == SESSION_CLOSED,
        final(control).is_ending() == old(control).is_ending(),
        final(performance)@ == (match rollback {
            FinalRollback::NotNeeded => old(performance)@,
            FinalRollback::Tried { outcome, .. } => sqlite_transaction::control_counted(
                old(performance)@,
                SqliteTransactionScope::Interactive,
                SqliteTransactionControl::Rollback,
                outcome is Ok,
            ),
        }),
{
    let mut had_unclosed_transaction = false;
    let primary = match rollback {
        FinalRollback::NotNeeded => None,
        FinalRollback::Tried { outcome, autocommit } => {
            had_unclosed_transaction = true;
            match execute_transaction_control(
                performance,
                SqliteTransactionScope::Interactive,
                SqliteTransactionControl::Rollback,
                outcome,
            ) {
                Ok(()) => {
                    if autocommit {
                        None
                    } else {
                        Some(
                            SqliteInteractiveSessionFinalizationFailure::OutcomeUnknown(
                                SqliteRuntimeError::Internal("回滚成功后交互式连接仍非 autocommit"),
                            ),
                        )
                    }
                },
                Err(source) => {
                    let error = SqliteRuntimeError::driver("终结交互式事务", source, cancelled);
                    if autocommit {
                        Some(SqliteInteractiveSessionFinalizationFailure::OutcomeUnknown(error))
                    } else {
                        Some(SqliteInteractiveSessionFinalizationFailure::CleanupFailed(error))
                    }
                },
            }
        },
    };
    let unclosed = match close {
        Ok(()) => None,
        Err(source) => Some(SqliteRuntimeError::driver("关闭交互式连接", source, cancelled)),
    };
    control.close();
    match primary {
        None => match unclosed {
            None => Ok(SqliteInteractiveSessionFinalization { had_unclosed_transaction }),
            Some(source) => Err(
                SqliteInteractiveSessionFinalizationError {
                    primary: SqliteInteractiveSessionFinalizationFailure::CleanupFailed(source),
                    connection_close: None,
                },
            ),
        },
        Some(primary) => Err(
            SqliteInteractiveSessionFinalizationError { primary, connection_close: unclosed },
        ),
    }
}

/// How a session ends whose worker panicked.
pub fn panicked_finalization_result() -> (result: Result<
    SqliteInteractiveSessionFinalization,
    SqliteInteractiveSessionFinalizationError,
>)
    ensures
        result == Err::<
            SqliteInteractiveSessionFinalization,
            SqliteInteractiveSessionFinalizationError,
        >(
            (SqliteInteractiveSessionFinalizationError {
                primary: SqliteInteractiveSessionFinalizationFailure::OutcomeUnknown(
                    SqliteRuntimeError::WorkerPanicked("交互式 actor"),
                ),
                connection_close: None,
            }),
        ),
{
    Err(
        SqliteInteractiveSessionFinalizationError {
            primary: SqliteInteractiveSessionFinalizationFailure::OutcomeUnknown(
                SqliteRuntimeError::WorkerPanicked("交互式 actor"),
            ),
            connection_close: None,
        },
    )
}

/// What opening a session fails with.
#[derive(Debug, PartialEq, Eq)]
pub enum OpenSqliteTransactionSessionError {
    NotFound,
    OpenFailed(SqliteRuntimeError),
}

/// Whether `mapped` says why a session could not be opened.
pub open spec fn is_refused_for(
    path: Seq<char>,
    error: ExistingFileErrorOrRuntime,
    mapped: OpenSqliteTransactionSessionError,
) -> bool {
    match error {
        ExistingFileErrorOrRuntime::Existing(ExistingFileError::NotFound) => mapped
            == OpenSqliteTransactionSessionError::NotFound,
        ExistingFileErrorOrRuntime::Existing(ExistingFileError::InvalidTarget) => mapped matches
            OpenSqliteTransactionSessionError::OpenFailed(
            SqliteRuntimeError::InvalidTarget { path: p },
        ) && p@ == path,
        ExistingFileErrorOrRuntime::Existing(ExistingFileError::Io(source)) => mapped matches
            OpenSqliteTransactionSessionError::OpenFailed(
            SqliteRuntimeError::Io { operation, path: p, source: s },
        ) && operation == "检查交互式数据库" && p@ == path && s == source,
        ExistingFileErrorOrRuntime::Runtime(source) => mapped
            == OpenSqliteTransactionSessionError::OpenFailed(source),
    }
}

/// What opening a session reports when its database cannot be opened.
pub fn open_transaction_session(path: &str, error: ExistingFileErrorOrRuntime) -> (mapped:
    OpenSqliteTransactionSessionError)
    ensures
        is_refused_for(path@, error, mapped),
{
    match error {
        ExistingFileErrorOrRuntime::Existing(ExistingFileError::NotFound) =>
        OpenSqliteTransactionSessionError::NotFound,
        ExistingFileErrorOrRuntime::Existing(ExistingFileError::InvalidTarget) =>
        OpenSqliteTransactionSessionError::OpenFailed(
            SqliteRuntimeError::InvalidTarget { path: String::from_str(path) },
        ),
        ExistingFileErrorOrRuntime::Existing(ExistingFileError::Io(source)) =>
        OpenSqliteTransactionSessionError::OpenFailed(
            SqliteRuntimeError::io("检查交互式数据库", path, source),
        ),
        ExistingFileErrorOrRuntime::Runtime(source) => OpenSqliteTransactionSessionError::OpenFailed(
            source,
        ),
    }
}

/// The one place for a session: at most one is open or being opened. A session is known by
/// a number.
#[derive(Debug, PartialEq, Eq, Structural)]
pub struct InteractiveSessionSlot {
    accepting: bool,
    opening: bool,
    active: Option<u64>,
}

/// What a slot holds.
pub ghost struct Slot {
    pub accepting: bool,
    pub opening: bool,
    pub active: Option<u64>,
}

impl Slot {
    pub open spec fn is_empty(self) -> bool {
        !self.opening && self.active is None
    }

    pub open spec fn holds_at_most_one(self) -> bool {
        !(self.opening && self.active is Some)
    }

    /// Why no session can be opened.
    pub open spec fn refusal(self) -> Option<SqliteRuntimeError> {
        if !self.accepting {
            Some(SqliteRuntimeError::Closed)
        } else if !self.is_empty() {
            Some(SqliteRuntimeError::InteractiveSessionAlreadyOpen)
        } else {
            None
        }
    }

    pub open spec fn begun(self) -> Slot {
        Slot { opening: true, ..self }
    }

    pub open spec fn opened(self, session: u64) -> Slot {
        Slot { opening: false, active: Some(session), ..self }
    }

    pub open spec fn aborted(self) -> Slot {
        Slot { opening: false, ..self }
    }

    pub open spec fn ended(self) -> Slot {
        Slot { active: None, ..self }
    }

    pub open spec fn shut(self) -> Slot {
        Slot { accepting: false, ..self }
    }
}

impl View for InteractiveSessionSlot {
    type V = Slot;

    closed spec fn view(&self) -> Slot {
        Slot { accepting: self.accepting, opening: self.opening, active: self.active }
    }
}

impl InteractiveSessionSlot {
    pub fn new() -> (slot: Self)
        ensures
            slot@ == (Slot { accepting: true, opening: false, active: None }),
    {
        InteractiveSessionSlot { accepting: true, opening: false, active: None }
    }

    pub fn begin_open(&mut self) -> (result: Result<(), SqliteRuntimeError>)
        ensures
            match old(self)@.refusal() {
                Some(error) => result == Err::<(), SqliteRuntimeError>(error) && final(self)@ == old(
                    self,
                )@,
                None => result == Ok::<(), SqliteRuntimeError>(()) && final(self)@ == old(self)@.begun(),
            },
    {
        if !self.accepting {
            return Err(SqliteRuntimeError::Closed);
        }
        if self.opening || self.active.is_some() {
            return Err(SqliteRuntimeError::InteractiveSessionAlreadyOpen);
        }
        self.opening = true;
        Ok(())
    }

    /// The session is open; says whether it is still wanted.
    pub fn complete_open(&mut self, session: u64) -> (wanted: bool)
        requires
            old(self)@.opening,
            old(self)@.active is None,
        ensures
            wanted == old(self)@.accepting,
            final(self)@ == old(self)@.opened(session),
    {
        self.opening = false;
        self.active = Some(session);
        self.accepting
    }

    pub fn abort_open(&mut self)
        ensures
            final(self)@ == old(self)@.aborted(),
    {
        self.opening = false;
    }

    /// After a panic while opening: the session that must be ended, if it got that far.
    pub fn recover_open_panic(&mut self) -> (session: Option<u64>)
        ensures
            session == old(self)@.active,
            final(self)@ == old(self)@.aborted(),
    {
        self.opening = false;
        self.active
    }

    /// The session is over.
    pub fn complete(&mut self)
        ensures
            final(self)@ == old(self)@.ended(),
    {
        self.active = None;
    }

    /// No session from now on; gives the one that must be ended.
    pub fn begin_shutdown(&mut self) -> (session: Option<u64>)
        ensures
            session == old(self)@.active,
            final(self)@ == old(self)@.shut(),
    {
        self.accepting = false;
        self.active
    }

    /// Whether nothing has to be waited for.
    pub fn is_empty(&self) -> (empty: bool)
        ensures
            empty == self@.is_empty(),
    {
        !self.opening && self.active.is_none()
    }
}

/// After an uncertain outcome every further plan is refused; and only a session that is
/// open takes a plan at all.
pub proof fn uncertain_sessions_run_nothing(result: Result<(), ExecuteTransactionError>, autocommit: bool)
    ensures
        refusal(state_after(result, autocommit)) is Some <==> !(is_certain(result) && autocommit),
        forall|lifecycle: u8| #[trigger] admission(lifecycle) is Ok <==> lifecycle == SESSION_OPEN,
{
}

/// Whether a plan certainly took place or certainly did not.
pub open spec fn has_known_outcome(result: Result<(), ExecuteTransactionError>) -> bool {
    ||| result is Ok
    ||| result->Err_0 is NotCommitted
    ||| result->Err_0 is RequirementFailed
    ||| result->Err_0 is RequirementFailedWithRow
}

/// A session goes on after a plan exactly when the plan's outcome is known and no
/// transaction is open. Then it runs the next plan, if that is acceptable, and stays in the
/// part of its life that it was in; otherwise it runs nothing any more and says why.
pub proof fn sessions_go_on_after_known_outcomes(
    result: Result<(), ExecuteTransactionError>,
    autocommit: bool,
    life: u8,
    plan: SqliteTransactionPlan,
    command: SessionCommand<'_>,
)
    requires
        is_command(state_after(result, autocommit), autocommit, plan, command),
    ensures
        state_after(result, autocommit) is Ready <==> has_known_outcome(result) && autocommit,
        !(result matches Err(ExecuteTransactionError::NotFound)) ==> (state_after(result, autocommit)
            is Ready <==> autocommit && !(result->Err_0 is OutcomeUnknown && result is Err) && !(result
            is Err && result->Err_0 is RequirementFailedWithRowOutcomeUnknown)),
        has_known_outcome(result) && autocommit ==> {
            &&& life_after(life, result, autocommit) == life
            &&& sqlite_plan::plan_fault(plan) is None ==> (command matches SessionCommand::Run(run)
                && run.steps() == plan.planned() && run.at() is Beginning)
            &&& sqlite_plan::plan_fault(plan) matches Some(error) ==> command == SessionCommand::NotRun(
                ExecuteTransactionError::NotCommitted(error),
            )
        },
        !(has_known_outcome(result) && autocommit) ==> {
            &&& life_after(life, result, autocommit) == SESSION_INDETERMINATE
            &&& command matches SessionCommand::Refused(error) && error is OutcomeUnknown
            &&& admission(life_after(life, result, autocommit)) matches Err(error) && error
                is OutcomeUnknown
        },
{
}

/// A plan never runs inside another transaction, and such a plan is not committed.
pub proof fn plans_do_not_run_inside_a_transaction(
    state: TransactionSessionState,
    plan: SqliteTransactionPlan,
    command: SessionCommand<'_>,
)
    requires
        is_command(state, false, plan, command),
    ensures
        !(command is Run),
        state is Ready ==> (command matches SessionCommand::NotRun(error) && error is NotCommitted),
{
}

/// The parts of a session's life differ; an ended session takes no plan, and what it
/// refuses is not committed.
pub proof fn ended_sessions_commit_nothing(life: u8)
    ensures
        SESSION_OPEN != SESSION_INDETERMINATE && SESSION_OPEN != SESSION_FINALIZING && SESSION_OPEN
            != SESSION_CLOSED,
        SESSION_INDETERMINATE != SESSION_FINALIZING && SESSION_INDETERMINATE != SESSION_CLOSED
            && SESSION_FINALIZING != SESSION_CLOSED,
        admission(life) is Ok <==> life == SESSION_OPEN,
        life != SESSION_OPEN && life != SESSION_INDETERMINATE ==> admission(life)->Err_0
            is NotCommitted,
        life == SESSION_FINALIZING || life == SESSION_CLOSED ==> admission(life)->Err_0
            == ExecuteTransactionError::NotCommitted(SqliteRuntimeError::Closed),
{
}

/// A session ends well exactly when its connection was closed and an open transaction, if
/// there was one, was certainly rolled back. A rollback about which the connection
/// contradicts itself leaves the outcome unknown; one that failed with the transaction
/// still open, or a connection that could not be closed, leaves something to clean up.
pub proof fn session_ends_tell_what_happened(
    rollback: FinalRollback,
    close: Result<(), SqliteDriverError>,
    cancelled: bool,
)
    ensures
        ({
            let undone = rollback matches FinalRollback::Tried { outcome, autocommit } ==> outcome is Ok
                && autocommit;
            let contradicted = rollback matches FinalRollback::Tried { outcome, autocommit } && outcome
                is Ok != autocommit;
            match finalized(rollback, close, cancelled) {
                Ok(finalization) => {
                    &&& undone && close is Ok
                    &&& finalization.had_unclosed_transaction <==> rollback is Tried
                },
                Err(error) => {
                    &&& !(undone && close is Ok)
                    &&& error.primary is OutcomeUnknown <==> contradicted
                    &&& error.connection_close is Some <==> !undone && close is Err
                },
            }
        }),
{
}

/// At most one session is open or being opened, whatever happens to the slot; and once the
/// slot is shut, none is opened again.
pub proof fn one_session_at_a_time(slot: Slot, session: u64)
    requires
        slot.holds_at_most_one(),
    ensures
        slot.refusal() is None <==> slot.accepting && !slot.opening && slot.active is None,
        slot.refusal() matches Some(error) ==> (if slot.accepting {
            error is InteractiveSessionAlreadyOpen
        } else {
            error is Closed
        }),
        slot.refusal() is None ==> slot.is_empty() && slot.begun().holds_at_most_one()
            && !slot.begun().is_empty() && slot.begun().refusal() is Some,
        slot.opening ==> slot.opened(session).active == Some(session) && slot.opened(session).refusal()
            is Some && slot.opened(session).ended().is_empty() && slot.aborted().is_empty(),
        slot.begun().accepting == slot.accepting && slot.opened(session).accepting == slot.accepting
            && slot.aborted().accepting == slot.accepting && slot.ended().accepting == slot.accepting,
        slot.shut().active == slot.active && slot.shut().opening == slot.opening,
        slot.aborted().active == slot.active && slot.ended().opening == slot.opening,
        slot.opening ==> slot.opened(session).holds_at_most_one(),
        slot.aborted().holds_at_most_one(),
        slot.ended().holds_at_most_one(),
        slot.shut().holds_at_most_one(),
        slot.shut().refusal() == Some(SqliteRuntimeError::Closed),
        slot.shut().aborted().refusal() == Some(SqliteRuntimeError::Closed),
        slot.shut().ended().refusal() == Some(SqliteRuntimeError::Closed),
        slot.shut().opened(session).refusal() == Some(SqliteRuntimeError::Closed),
{
}

} // verus!
