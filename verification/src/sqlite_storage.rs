//! The storage as a whole: its workers, what it accepts, and its shutdown.

use vstd::prelude::*;
use vstd::string::*;
use crate::diagnostic::IoError;
use crate::sqlite_database::{CreateDatabaseError, SnapshotDatabaseError};
use crate::sqlite_error::SqliteRuntimeError;
use crate::sqlite_open::QueryExistingDatabaseError;
use crate::sqlite_session::OpenSqliteTransactionSessionError;
use crate::sqlite_transaction::{ExecuteFinalTransactionError, ExecuteTransactionError};
use crate::sqlite_wait::SqliteWaitCancellation;
use crate::text;
use crate::text::push_decimal;

verus! {

/// How many workers run short operations at most, unless their number is fixed.
pub const SHORT_WORKER_LIMIT: usize = 4;

/// The stack of a worker, in bytes.
pub const WORKER_STACK_BYTES: usize = 4_194_304;

/// What the storage runs on.
#[derive(Clone, Copy, Debug, PartialEq, Eq, Structural)]
pub struct RusqliteStorageConfiguration {
    worker_stack_bytes: usize,
    fixed_short_worker_threads: Option<usize>,
}

/// How many workers are started: a fixed number, or one per processor up to a limit.
pub open spec fn workers(fixed: Option<usize>, available: Result<usize, IoError>) -> Result<
    usize,
    SqliteRuntimeError,
> {
    match (fixed, available) {
        (Some(fixed), _) => Ok(fixed),
        (None, Ok(available)) => Ok(
            if available < SHORT_WORKER_LIMIT {
                available
            } else {
                SHORT_WORKER_LIMIT
            },
        ),
        (None, Err(source)) => Err(SqliteRuntimeError::AvailableParallelism { source }),
    }
}

impl RusqliteStorageConfiguration {
    pub closed spec fn stack(&self) -> usize {
        self.worker_stack_bytes
    }

    pub closed spec fn fixed_workers(&self) -> Option<usize> {
        self.fixed_short_worker_threads
    }

    /// As many workers as the machine can run at once, up to the limit.
    pub fn production() -> (configuration: Self)
        ensures
            configuration.stack() == WORKER_STACK_BYTES,
            configuration.fixed_workers() is None,
    {
        RusqliteStorageConfiguration {
            worker_stack_bytes: WORKER_STACK_BYTES,
            fixed_short_worker_threads: None,
        }
    }

    /// A fixed number of workers.
    pub fn new(short_worker_threads: usize, worker_stack_bytes: usize) -> (configuration: Self)
        requires
            short_worker_threads > 0,
            worker_stack_bytes > 0,
        ensures
            configuration.stack() == worker_stack_bytes,
            configuration.fixed_workers() == Some(short_worker_threads),
    {
        RusqliteStorageConfiguration {
            worker_stack_bytes,
            fixed_short_worker_threads: Some(short_worker_threads),
        }
    }

    pub fn worker_stack_bytes(&self) -> (bytes: usize)
        ensures
            bytes == self.stack(),
    {
        self.worker_stack_bytes
    }

    /// Whether the machine has to be asked for its parallelism.
    pub fn asks_for_parallelism(&self) -> (asks: bool)
        ensures
            asks == self.fixed_workers() is None,
    {
        self.fixed_short_worker_threads.is_none()
    }

    /// How many workers to start.
    pub fn start_with_available_parallelism(&self, available: Result<usize, IoError>) -> (result: Result<
        usize,
        SqliteRuntimeError,
    >)
        ensures
            result == workers(self.fixed_workers(), available),
    {
        match self.fixed_short_worker_threads {
            Some(fixed) => Ok(fixed),
            None => match available {
                Ok(available) => {
                    if available < SHORT_WORKER_LIMIT {
                        Ok(available)
                    } else {
                        Ok(SHORT_WORKER_LIMIT)
                    }
                },
                Err(source) => Err(SqliteRuntimeError::AvailableParallelism { source }),
            },
        }
    }
}

/// The name of a worker's thread.
pub fn short_worker_name(index: usize) -> (name: String)
    ensures
        name@ == "att-sqlite-short-"@ + text::decimal(index as nat),
{
    let mut name = String::from_str("att-sqlite-short-");
    push_decimal(&mut name, index as u64);
    name
}

/// The failure to start a worker.
pub fn short_worker_failure(index: usize, source: IoError) -> (error: SqliteRuntimeError)
    ensures
        error matches SqliteRuntimeError::WorkerSpawn { worker, source: s } && worker@ == "short-"@
            + text::decimal(index as nat) && s == source,
{
    let mut worker = String::from_str("short-");
    push_decimal(&mut worker, index as u64);
    SqliteRuntimeError::WorkerSpawn { worker, source }
}

/// The other workers that may fail to start.
#[derive(Clone, Copy, Debug, PartialEq, Eq, Structural)]
pub enum SpecialWorker {
    Shutdown,
    Session,
    SessionOpening,
    FinalTransaction,
}

impl SpecialWorker {
    pub open spec fn name(self) -> Seq<char> {
        match self {
            SpecialWorker::Shutdown => "shutdown"@,
            SpecialWorker::Session => "interactive"@,
            SpecialWorker::SessionOpening => "transaction-session-open"@,
            SpecialWorker::FinalTransaction => "final-transaction"@,
        }
    }

    pub fn failure(self, source: IoError) -> (error: SqliteRuntimeError)
        ensures
            error matches SqliteRuntimeError::WorkerSpawn { worker, source: s } && worker@ == self.name()
                && s == source,
    {
        let worker = match self {
            SpecialWorker::Shutdown => "shutdown",
            SpecialWorker::Session => "interactive",
            SpecialWorker::SessionOpening => "transaction-session-open",
            SpecialWorker::FinalTransaction => "final-transaction",
        };
        SqliteRuntimeError::WorkerSpawn { worker: String::from_str(worker), source }
    }
}

pub const STORAGE_RUNNING: u8 = 0;

pub const STORAGE_SHUTTING_DOWN: u8 = 1;

pub const STORAGE_CLOSED: u8 = 2;

/// What the storage accepts.
#[derive(Debug, PartialEq, Eq, Structural)]
pub struct StorageLife {
    accepting: bool,
    lifecycle: u8,
    admission_closed: bool,
    cancellation: SqliteWaitCancellation,
}

#[verifier::ext_equal]
pub ghost struct Life {
    pub accepting: bool,
    pub lifecycle: u8,
    pub admission_closed: bool,
    pub given_up: bool,
}

impl View for StorageLife {
    type V = Life;

    closed spec fn view(&self) -> Life {
        Life {
            accepting: self.accepting,
            lifecycle: self.lifecycle,
            admission_closed: self.admission_closed,
            given_up: self.cancellation.given_up(),
        }
    }
}

impl Life {
    /// Whether new work is taken.
    pub open spec fn admission(self) -> Result<(), SqliteRuntimeError> {
        if self.accepting {
            Ok(())
        } else {
            Err(SqliteRuntimeError::Closed)
        }
    }

    /// Whether a storage that is let go of still waits for its workers.
    pub open spec fn waits_for(self, workers_left: bool) -> bool {
        workers_left && self.lifecycle != STORAGE_CLOSED
    }

    pub open spec fn running() -> Life {
        Life {
            accepting: true,
            lifecycle: STORAGE_RUNNING,
            admission_closed: false,
            given_up: false,
        }
    }

    /// With every wait given up.
    pub open spec fn cancelled(self) -> Life {
        Life { admission_closed: true, given_up: true, ..self }
    }

    /// After a shutdown was asked for; only the first one begins it.
    pub open spec fn shut_down(self) -> Life {
        if self.lifecycle == STORAGE_RUNNING {
            Life { accepting: false, lifecycle: STORAGE_SHUTTING_DOWN, ..self.cancelled() }
        } else {
            self
        }
    }

    /// After all workers are gone.
    pub open spec fn closed(self) -> Life {
        Life { lifecycle: STORAGE_CLOSED, ..self }
    }

    /// After the storage was let go of.
    pub open spec fn abandoned(self) -> Life {
        Life { accepting: false, ..self.cancelled() }
    }
}

/// What to do when a shutdown is asked for.
#[derive(Debug, PartialEq, Eq)]
pub enum ShutdownStart {
    /// Close the queue, end the session and wait for all workers.
    Begin,
    AlreadyClosed,
    Refused(SqliteRuntimeError),
}

/// What a shutdown ends with.
pub open spec fn shutdown_result(panicked: bool) -> Result<(), SqliteRuntimeError> {
    if panicked {
        Err(SqliteRuntimeError::WorkerPanicked("shutdown"))
    } else {
        Ok(())
    }
}

/// What a call for the shutdown finds.
pub open spec fn shutdown_start(lifecycle: u8) -> ShutdownStart {
    if lifecycle == STORAGE_RUNNING {
        ShutdownStart::Begin
    } else if lifecycle == STORAGE_CLOSED {
        ShutdownStart::AlreadyClosed
    } else {
        ShutdownStart::Refused(
            SqliteRuntimeError::Internal("SQLite shutdown 已经在另一调用中进行"),
        )
    }
}

impl StorageLife {
    pub fn new() -> (life: Self)
        ensures
            life@ == Life::running(),
    {
        StorageLife {
            accepting: true,
            lifecycle: STORAGE_RUNNING,
            admission_closed: false,
            cancellation: SqliteWaitCancellation::new(),
        }
    }

    pub fn ensure_accepting(&self) -> (result: Result<(), SqliteRuntimeError>)
        ensures
            result == self@.admission(),
    {
        if self.accepting {
            Ok(())
        } else {
            Err(SqliteRuntimeError::Closed)
        }
    }

    /// Gives up every wait for a permit or a lock. What already runs goes on to its end.
    pub fn cancel_waits(&mut self)
        ensures
            final(self)@ == old(self)@.cancelled(),
    {
        self.cancellation.request();
        self.admission_closed = true;
    }

    pub fn shutdown(&mut self) -> (start: ShutdownStart)
        ensures
            start == shutdown_start(old(self)@.lifecycle),
            final(self)@ == old(self)@.shut_down(),
    {
        if self.lifecycle == STORAGE_CLOSED {
            return ShutdownStart::AlreadyClosed;
        }
        if self.lifecycle != STORAGE_RUNNING {
            return ShutdownStart::Refused(
                SqliteRuntimeError::Internal("SQLite shutdown 已经在另一调用中进行"),
            );
        }
        self.lifecycle = STORAGE_SHUTTING_DOWN;
        self.accepting = false;
        self.cancel_waits();
        ShutdownStart::Begin
    }

    /// All workers are gone; `panicked` is whether one of them panicked.
    pub fn finish_shutdown(&mut self, panicked: bool) -> (result: Result<(), SqliteRuntimeError>)
        ensures
            final(self)@ == old(self)@.closed(),
            result == shutdown_result(panicked),
    {
        self.lifecycle = STORAGE_CLOSED;
        if panicked {
            Err(SqliteRuntimeError::WorkerPanicked("shutdown"))
        } else {
            Ok(())
        }
    }

    /// Whether the waits of the storage's workers are given up.
    pub fn wait_cancellation(&self) -> (cancellation: SqliteWaitCancellation)
        ensures
            cancellation.given_up() == self@.given_up,
    {
        self.cancellation
    }

    /// The storage is let go of without a shutdown; says whether workers are left that
    /// must be waited for.
    pub fn abandon(&mut self, workers_left: bool) -> (wait: bool)
        ensures
            final(self)@ == old(self)@.abandoned(),
            wait == old(self)@.waits_for(workers_left),
    {
        self.accepting = false;
        self.cancel_waits();
        workers_left && self.lifecycle != STORAGE_CLOSED
    }
}

/// Once a shutdown has begun, the storage accepts nothing any more, whatever is called.
pub proof fn shutdown_is_for_good(life: Life)
    requires
        life.lifecycle != STORAGE_RUNNING,
        !life.accepting,
    ensures
        forall|next: Life|
            #![trigger next.accepting]
            next == life.cancelled() || next == life.shut_down() || next == life.closed() || next
                == life.abandoned() ==> !next.accepting && next.lifecycle != STORAGE_RUNNING,
        life.lifecycle == STORAGE_CLOSED ==> life.shut_down() == life,
{
}

/// A shutdown that begins stops everything new and gives up every wait.
pub proof fn shutdown_stops_everything(life: Life)
    requires
        life.lifecycle == STORAGE_RUNNING,
    ensures
        !life.shut_down().accepting,
        life.shut_down().admission_closed,
        life.shut_down().given_up,
        life.shut_down().lifecycle == STORAGE_SHUTTING_DOWN,
{
}

/// How far a short operation got that did not come back with a result of its own.
#[derive(Clone, Copy, Debug, PartialEq, Eq, Structural)]
pub enum ShortStop {
    NotAccepted,
    /// The permit to run was refused.
    NotAdmitted,
    NotSent,
    /// The worker panicked or never answered.
    Lost,
}

impl ShortStop {
    /// Whether the operation may have had an effect.
    pub open spec fn is_uncertain(self) -> bool {
        self == ShortStop::Lost
    }

    pub open spec fn error(self) -> SqliteRuntimeError {
        match self {
            ShortStop::NotAccepted => SqliteRuntimeError::Closed,
            ShortStop::NotAdmitted => SqliteRuntimeError::Cancelled {
                operation: "等待 SQLite 短操作执行许可",
            },
            ShortStop::NotSent => SqliteRuntimeError::Closed,
            ShortStop::Lost => SqliteRuntimeError::WorkerPanicked("短操作"),
        }
    }

    pub fn runtime_error(self) -> (error: SqliteRuntimeError)
        ensures
            error == self.error(),
    {
        match self {
            ShortStop::NotAccepted => SqliteRuntimeError::Closed,
            ShortStop::NotAdmitted => SqliteRuntimeError::Cancelled {
                operation: "等待 SQLite 短操作执行许可",
            },
            ShortStop::NotSent => SqliteRuntimeError::Closed,
            ShortStop::Lost => SqliteRuntimeError::WorkerPanicked("短操作"),
        }
    }

    pub open spec fn as_creation(self) -> CreateDatabaseError {
        if self.is_uncertain() {
            CreateDatabaseError::OutcomeUnknown(self.error())
        } else {
            CreateDatabaseError::NotCreated(self.error())
        }
    }

    /// What the creation of a database reports.
    pub fn creation(self) -> (error: CreateDatabaseError)
        ensures
            error == self.as_creation(),
    {
        match self {
            ShortStop::Lost => CreateDatabaseError::OutcomeUnknown(self.runtime_error()),
            _ => CreateDatabaseError::NotCreated(self.runtime_error()),
        }
    }

    pub open spec fn as_snapshot(self) -> SnapshotDatabaseError {
        if self.is_uncertain() {
            SnapshotDatabaseError::OutcomeUnknown(self.error())
        } else {
            SnapshotDatabaseError::NotCreated(self.error())
        }
    }

    /// What the copy of a database reports.
    pub fn snapshot(self) -> (error: SnapshotDatabaseError)
        ensures
            error == self.as_snapshot(),
    {
        match self {
            ShortStop::Lost => SnapshotDatabaseError::OutcomeUnknown(self.runtime_error()),
            _ => SnapshotDatabaseError::NotCreated(self.runtime_error()),
        }
    }

    /// What a query reports.
    pub fn query(self) -> (error: QueryExistingDatabaseError)
        ensures
            error == QueryExistingDatabaseError::QueryFailed(self.error()),
    {
        QueryExistingDatabaseError::QueryFailed(self.runtime_error())
    }

    pub open spec fn as_transaction(self) -> ExecuteTransactionError {
        if self.is_uncertain() {
            ExecuteTransactionError::OutcomeUnknown(self.error())
        } else {
            ExecuteTransactionError::NotCommitted(self.error())
        }
    }

    /// What a transaction reports.
    pub fn transaction(self) -> (error: ExecuteTransactionError)
        ensures
            error == self.as_transaction(),
    {
        match self {
            ShortStop::Lost => ExecuteTransactionError::OutcomeUnknown(self.runtime_error()),
            _ => ExecuteTransactionError::NotCommitted(self.runtime_error()),
        }
    }
}

/// The permit to run a short operation, or why there is none.
pub fn acquire_short_admission(granted: bool) -> (result: Result<(), SqliteRuntimeError>)
    ensures
        result == (if granted {
            Ok::<(), SqliteRuntimeError>(())
        } else {
            Err(ShortStop::NotAdmitted.error())
        }),
{
    if granted {
        Ok(())
    } else {
        Err(ShortStop::NotAdmitted.runtime_error())
    }
}

/// What a final transaction reports whose worker panicked or never answered.
pub fn lost_final_transaction() -> (error: ExecuteFinalTransactionError)
    ensures
        error == ExecuteFinalTransactionError::OutcomeUnknown(
            SqliteRuntimeError::WorkerPanicked("最终短事务"),
        ),
{
    ExecuteFinalTransactionError::OutcomeUnknown(SqliteRuntimeError::WorkerPanicked("最终短事务"))
}

/// What opening a session reports whose worker panicked or never answered.
pub fn lost_session_opening() -> (error: OpenSqliteTransactionSessionError)
    ensures
        error == OpenSqliteTransactionSessionError::OpenFailed(
            SqliteRuntimeError::WorkerPanicked("事务计划会话打开"),
        ),
{
    OpenSqliteTransactionSessionError::OpenFailed(
        SqliteRuntimeError::WorkerPanicked("事务计划会话打开"),
    )
}

/// What runs the last transaction, after the storage is shut down. Its waits are given up
/// by themselves.
#[derive(Debug, PartialEq, Eq, Structural)]
pub struct RusqliteFinalTransactionExecutor {
    config: RusqliteStorageConfiguration,
    wait_cancellation: SqliteWaitCancellation,
}

impl RusqliteFinalTransactionExecutor {
    pub closed spec fn configuration(&self) -> RusqliteStorageConfiguration {
        self.config
    }

    pub closed spec fn given_up(&self) -> bool {
        self.wait_cancellation.given_up()
    }

    pub fn new_with_performance(config: RusqliteStorageConfiguration) -> (executor: Self)
        ensures
            executor.configuration() == config,
            !executor.given_up(),
    {
        RusqliteFinalTransactionExecutor { config, wait_cancellation: SqliteWaitCancellation::new() }
    }

    /// Gives up the wait for a lock that is not yet held.
    pub fn cancel_waits(&mut self)
        ensures
            final(self).given_up(),
            final(self).configuration() == old(self).configuration(),
    {
        self.wait_cancellation.request();
    }

    pub fn wait_cancellation(&self) -> (cancellation: SqliteWaitCancellation)
        ensures
            cancellation.given_up() == self.given_up(),
    {
        self.wait_cancellation
    }

    pub fn config(&self) -> (config: RusqliteStorageConfiguration)
        ensures
            config == self.configuration(),
    {
        self.config
    }
}

} // verus!
