//! Handing events to the writer of the project log, and ending a run.

use vstd::prelude::*;
use crate::diagnostic::DiagnosticReport;
use crate::log_event::{
    DiagnosticOccurrence, DiagnosticOccurrenceId, DiagnosticScope, OccurrenceIdExhausted,
    ProjectLogCode, ProjectLogContext, ProjectLogDelivery, ProjectLogEvent, ProjectLogFailureKey,
    ProjectLogHealthSnapshot, RunFinished, TranslationTaskCounters,
};
use crate::log_errors::PrepareTerminalDiagnosticError;
use crate::log_health;
use crate::log_health::{HealthNotice, ProjectLogHealth};
use crate::log_producer;
use crate::log_producer::{
    EmitDisposition, EmitError, FinishError, OccurrenceState, ProducerState,
};
use crate::log_terminal;
use crate::log_terminal::PreparedTerminalDiagnostic;
use crate::performance::RunPerformanceSnapshot;

verus! {

/// How many best-effort events may wait for the writer at one time.
pub const BEST_EFFORT_IN_FLIGHT: usize = 8_192;

/// Whether an event takes up a place among the best-effort events.
#[derive(Clone, Copy, Debug, PartialEq, Eq, Structural)]
pub enum PermitKind {
    Required,
    BestEffort,
}

/// The places for best-effort events that wait for the writer.
#[derive(Debug)]
pub struct BestEffortPermits {
    in_flight: usize,
}

impl BestEffortPermits {
    /// How many events wait.
    pub closed spec fn waiting(&self) -> nat {
        self.in_flight as nat
    }

    pub fn new() -> (permits: Self)
        ensures
            permits.waiting() == 0,
    {
        BestEffortPermits { in_flight: 0 }
    }

    /// Takes a place, if one is free.
    pub fn try_acquire(&mut self) -> (acquired: bool)
        ensures
            acquired == (old(self).waiting() < BEST_EFFORT_IN_FLIGHT),
            final(self).waiting() == old(self).waiting() + if acquired {
                1nat
            } else {
                0nat
            },
    {
        if self.in_flight < BEST_EFFORT_IN_FLIGHT {
            self.in_flight = self.in_flight + 1;
            true
        } else {
            false
        }
    }

    /// Gives a place back.
    pub fn release(&mut self)
        requires
            old(self).waiting() > 0,
        ensures
            final(self).waiting() == old(self).waiting() - 1,
    {
        self.in_flight = self.in_flight - 1;
    }
}

/// What producers and the writer keep together.
pub ghost struct Account {
    pub health: log_health::Health,
    pub waiting: nat,
    pub next_sequence: u64,
}

impl Account {
    pub open spec fn initial() -> Self {
        Account { health: log_health::Health::initial(), waiting: 0, next_sequence: 1 }
    }

    pub open spec fn failed(self, key: ProjectLogFailureKey) -> Self {
        Account { health: self.health.recorded(key), ..self }
    }

    /// Events of this code are lost because nobody receives them.
    pub open spec fn undelivered(self, code: ProjectLogCode) -> Self {
        self.failed(ProjectLogFailureKey::ChannelClosed { code: Some(code) }).failed(
            ProjectLogFailureKey::NotPersisted { code },
        )
    }

    /// Numbers one more event, if a number is left.
    pub open spec fn numbered(self) -> (Self, Option<u64>) {
        if self.next_sequence == u64::MAX {
            (self.failed(ProjectLogFailureKey::SequenceExhausted), None)
        } else {
            (
                Account { next_sequence: (self.next_sequence + 1) as u64, ..self },
                Some(self.next_sequence),
            )
        }
    }

    pub open spec fn acquired(self, permit: PermitKind) -> Self {
        if permit == PermitKind::BestEffort {
            Account { waiting: self.waiting + 1, ..self }
        } else {
            self
        }
    }

    pub open spec fn released(self, permit: PermitKind) -> Self {
        if permit == PermitKind::BestEffort {
            Account { waiting: (self.waiting - 1) as nat, ..self }
        } else {
            self
        }
    }

    /// Hands an event of this code to the writer. A best-effort event is dropped when too
    /// many wait; a number that was taken is not given back.
    pub open spec fn submitted(
        self,
        connected: bool,
        code: ProjectLogCode,
        permit: PermitKind,
    ) -> (Self, Result<Option<u64>, EmitError>) {
        if permit == PermitKind::BestEffort && self.waiting >= BEST_EFFORT_IN_FLIGHT {
            (self.failed(ProjectLogFailureKey::BestEffortBackpressure { code }), Ok(None))
        } else {
            match self.numbered() {
                (after, None) => (after, Err(EmitError::SequenceExhausted)),
                (after, Some(sequence)) => if connected {
                    (after.acquired(permit), Ok(Some(sequence)))
                } else {
                    (after.undelivered(code), Err(EmitError::Closed))
                },
            }
        }
    }
}

/// The permit that an event needs.
pub open spec fn permit_of(event: ProjectLogEvent) -> PermitKind {
    if event.droppable() {
        PermitKind::BestEffort
    } else {
        PermitKind::Required
    }
}

/// Health, permits and numbers of one run's log.
#[derive(Debug)]
pub struct LogAccount {
    health: ProjectLogHealth,
    permits: BestEffortPermits,
    next_sequence: u64,
}

impl View for LogAccount {
    type V = Account;

    closed spec fn view(&self) -> Account {
        Account {
            health: self.health@,
            waiting: self.permits.waiting(),
            next_sequence: self.next_sequence,
        }
    }
}

impl LogAccount {
    pub closed spec fn well_formed(&self) -> bool {
        self.health.well_formed()
    }

    pub fn new() -> (account: Self)
        ensures
            account.well_formed(),
            account@ == Account::initial(),
    {
        LogAccount {
            health: ProjectLogHealth::new(),
            permits: BestEffortPermits::new(),
            next_sequence: 1,
        }
    }

    /// Counts a failure.
    pub fn record(&mut self, key: ProjectLogFailureKey)
        requires
            old(self).well_formed(),
        ensures
            final(self).well_formed(),
            final(self)@ == old(self)@.failed(key),
    {
        self.health.record(key);
    }

    /// All failures so far.
    pub fn health(&self) -> (snapshot: ProjectLogHealthSnapshot)
        requires
            self.well_formed(),
        ensures
            self@.health.is_shown_by(snapshot),
    {
        self.health.snapshot()
    }

    /// Tells an observer of the failures so far, and from now on of every new kind, in place
    /// of an earlier observer. Its notices are known by the number `observer`.
    pub fn install_health_observer(&mut self, observer: u64)
        requires
            old(self).well_formed(),
        ensures
            final(self).well_formed(),
            final(self)@ == (Account {
                health: old(self)@.health.observed_by(observer),
                ..old(self)@
            }),
    {
        self.health.install_observer(observer);
    }

    /// Stops telling the observer; the failures are still counted.
    pub fn clear_health_observer(&mut self)
        requires
            old(self).well_formed(),
        ensures
            final(self).well_formed(),
            final(self)@ == (Account { health: old(self)@.health.unobserved(), ..old(self)@ }),
    {
        self.health.clear_observer();
    }

    /// Hands out what observers are still to be told.
    pub fn take_notices(&mut self) -> (notices: Vec<HealthNotice>)
        requires
            old(self).well_formed(),
        ensures
            final(self).well_formed(),
            final(self)@ == (Account { health: old(self)@.health.told(), ..old(self)@ }),
            log_health::shown(notices@) == old(self)@.health.notices,
            log_health::all_in_order(notices@),
    {
        self.health.take_notices()
    }

    /// The next event number; numbers start at one and are never given twice.
    pub fn allocate_sequence(&mut self) -> (sequence: Option<u64>)
        requires
            old(self).well_formed(),
        ensures
            final(self).well_formed(),
            (final(self)@, sequence) == old(self)@.numbered(),
    {
        if self.next_sequence == u64::MAX {
            self.health.record(ProjectLogFailureKey::SequenceExhausted);
            return None;
        }
        let sequence: u64 = self.next_sequence;
        self.next_sequence = sequence + 1;
        Some(sequence)
    }

    /// Gives back what an event took up while it waited.
    pub fn release(&mut self, permit: PermitKind)
        requires
            old(self).well_formed(),
            permit == PermitKind::BestEffort ==> old(self)@.waiting > 0,
        ensures
            final(self).well_formed(),
            final(self)@ == old(self)@.released(permit),
    {
        if permit == PermitKind::BestEffort {
            self.permits.release();
        }
    }

    /// Counts an event that nobody receives.
    fn undelivered(&mut self, code: ProjectLogCode)
        requires
            old(self).well_formed(),
        ensures
            final(self).well_formed(),
            final(self)@ == old(self)@.undelivered(code),
    {
        self.health.record(ProjectLogFailureKey::ChannelClosed { code: Some(code) });
        self.health.record(ProjectLogFailureKey::NotPersisted { code });
    }

    /// Takes a permit and a number for an event; without a permit there is neither.
    fn take_place(&mut self, connected: bool, event: &ProjectLogEvent) -> (result: Result<
        Option<(u64, PermitKind)>,
        EmitError,
    >)
        requires
            old(self).well_formed(),
        ensures
            final(self).well_formed(),
            ({
                let submitted = old(self)@.submitted(connected, event.kind(), permit_of(*event));
                &&& final(self)@ == submitted.0
                &&& match result {
                    Ok(Some((sequence, permit))) => submitted.1 == Ok::<Option<u64>, EmitError>(
                        Some(sequence),
                    ) && permit == permit_of(*event),
                    Ok(None) => submitted.1 == Ok::<Option<u64>, EmitError>(None),
                    Err(error) => submitted.1 == Err::<Option<u64>, EmitError>(error),
                }
            }),
    {
        let code = event.code();
        let permit = match event.delivery() {
            ProjectLogDelivery::Required => PermitKind::Required,
            ProjectLogDelivery::BestEffort => {
                if !self.permits.try_acquire() {
                    self.health.record(ProjectLogFailureKey::BestEffortBackpressure { code });
                    return Ok(None);
                }
                PermitKind::BestEffort
            },
        };
        let sequence: u64 = match self.allocate_sequence() {
            Some(sequence) => sequence,
            None => {
                self.release(permit);
                return Err(EmitError::SequenceExhausted);
            },
        };
        if !connected {
            self.release(permit);
            self.undelivered(code);
            return Err(EmitError::Closed);
        }
        Ok(Some((sequence, permit)))
    }

    /// Prepares an event for the queue.
    fn enqueue(&mut self, connected: bool, now: i128, event: ProjectLogEvent) -> (result: Result<
        Option<QueuedEvent>,
        EmitError,
    >)
        requires
            old(self).well_formed(),
        ensures
            final(self).well_formed(),
            ({
                let submitted = old(self)@.submitted(connected, event.kind(), permit_of(event));
                &&& final(self)@ == submitted.0
                &&& match result {
                    Ok(Some(queued)) => {
                        &&& submitted.1 == Ok::<Option<u64>, EmitError>(Some(queued.sequence))
                        &&& queued.event == event
                        &&& queued.emitted_at == now
                        &&& queued.permit == permit_of(event)
                    },
                    Ok(None) => submitted.1 == Ok::<Option<u64>, EmitError>(None),
                    Err(error) => submitted.1 == Err::<Option<u64>, EmitError>(error),
                }
            }),
    {
        match self.take_place(connected, &event) {
            Ok(Some((sequence, permit))) => Ok(
                Some(QueuedEvent { emitted_at: now, sequence, event, permit }),
            ),
            Ok(None) => Ok(None),
            Err(error) => Err(error),
        }
    }
}

/// An event on its way to the writer.
#[derive(Debug)]
pub struct QueuedEvent {
    /// When it was emitted, in nanoseconds since the Unix epoch.
    pub emitted_at: i128,
    pub sequence: u64,
    pub event: ProjectLogEvent,
    pub permit: PermitKind,
}

/// What the writer needs to close the log.
#[derive(Debug)]
pub struct FinalizeRequest {
    pub terminal_diagnostics: Vec<DiagnosticOccurrence>,
    pub performance: RunPerformanceSnapshot,
    pub result: RunFinished,
}

/// What travels from producers to the writer.
#[derive(Debug)]
pub enum QueueItem {
    Event(QueuedEvent),
    Finalize(FinalizeRequest),
}

/// What becomes of an event before it is sent.
#[derive(Debug)]
pub enum Submission {
    /// Nothing is left to do.
    Settled(EmitDisposition),
    /// The event is to be sent.
    Send(QueuedEvent),
}

/// What the producers of one run share.
pub ghost struct Producers {
    pub progress: log_producer::Progress,
    pub next_occurrence: u64,
}

impl Producers {
    pub open spec fn initial() -> Self {
        Producers { progress: log_producer::Progress::initial(), next_occurrence: 1 }
    }

    pub open spec fn with_progress(self, progress: log_producer::Progress) -> Self {
        Producers { progress, ..self }
    }
}

/// Whether `result` answers an event that was emitted at `now`, with what it did to the
/// producers and to the account. A task event that the queue refuses leaves no trace.
pub open spec fn is_emitted(
    before: Producers,
    account: Account,
    context: ProjectLogContext,
    now: i128,
    event: ProjectLogEvent,
    result: Result<Submission, EmitError>,
    after: Producers,
    account_after: Account,
) -> bool {
    let admitted = log_producer::admitted(
        before.progress,
        event,
        context.for_command(),
        context.for_engine(),
    );
    let submitted = account.submitted(admitted.0.connected, event.kind(), permit_of(event));
    &&& after == before.with_progress(
        if admitted.1 == Ok::<EmitDisposition, EmitError>(EmitDisposition::Accepted) && submitted.1
            is Err {
            log_producer::withdrawn(admitted.0, event)
        } else {
            admitted.0
        },
    )
    &&& account_after == if admitted.1 == Ok::<EmitDisposition, EmitError>(
        EmitDisposition::Accepted,
    ) {
        submitted.0
    } else {
        account
    }
    &&& match result {
        Ok(Submission::Send(queued)) => {
            &&& admitted.1 == Ok::<EmitDisposition, EmitError>(EmitDisposition::Accepted)
            &&& submitted.1 == Ok::<Option<u64>, EmitError>(Some(queued.sequence))
            &&& queued.event == event
            &&& queued.emitted_at == now
            &&& queued.permit == permit_of(event)
        },
        Ok(Submission::Settled(disposition)) => {
            ||| admitted.1 == Ok::<EmitDisposition, EmitError>(disposition) && disposition
                == EmitDisposition::DuplicateSuppressed
            ||| admitted.1 == Ok::<EmitDisposition, EmitError>(EmitDisposition::Accepted)
                && submitted.1 == Ok::<Option<u64>, EmitError>(None) && disposition
                == EmitDisposition::BestEffortDropped
        },
        Err(error) => {
            ||| admitted.1 == Err::<EmitDisposition, EmitError>(error)
            ||| admitted.1 == Ok::<EmitDisposition, EmitError>(EmitDisposition::Accepted)
                && submitted.1 == Err::<Option<u64>, EmitError>(error)
        },
    }
}

/// Whether `result` answers an event after it was sent, or after it could not be.
pub open spec fn is_settled(
    before: Producers,
    account: Account,
    undelivered: Option<QueuedEvent>,
    result: Result<EmitDisposition, EmitError>,
    after: Producers,
    account_after: Account,
) -> bool {
    match undelivered {
        None => {
            &&& result == Ok::<EmitDisposition, EmitError>(EmitDisposition::Accepted)
            &&& after == before
            &&& account_after == account
        },
        Some(queued) => {
            &&& result == Err::<EmitDisposition, EmitError>(EmitError::Closed)
            &&& after == before.with_progress(
                log_producer::withdrawn(before.progress, queued.event),
            )
            &&& account_after == account.released(queued.permit).undelivered(queued.event.kind())
        },
    }
}

/// Whether `result` answers a diagnostic that was recorded at `now`.
pub open spec fn is_diagnosed(
    before: Producers,
    account: Account,
    now: i128,
    scope: DiagnosticScope,
    report: DiagnosticReport,
    result: Result<QueuedEvent, EmitError>,
    after: Producers,
    account_after: Account,
) -> bool {
    let submitted = account.submitted(
        before.progress.connected,
        scope.event_code(),
        PermitKind::Required,
    );
    if before.progress.closed() {
        &&& result is Err && result->Err_0 == EmitError::Closed
        &&& after == before
        &&& account_after == account
    } else if before.next_occurrence == u64::MAX {
        &&& result is Err && result->Err_0 == EmitError::OccurrenceIdExhausted
        &&& after == before
        &&& account_after == account.failed(ProjectLogFailureKey::OccurrenceIdExhausted)
    } else {
        &&& account_after == submitted.0
        &&& after.next_occurrence == before.next_occurrence + 1
        &&& match result {
            Ok(queued) => {
                &&& submitted.1 == Ok::<Option<u64>, EmitError>(Some(queued.sequence))
                &&& queued.permit == PermitKind::Required
                &&& queued.emitted_at == now
                &&& queued.event matches ProjectLogEvent::Diagnostic { occurrence }
                &&& occurrence.identity().number() == before.next_occurrence
                &&& occurrence.about() == scope
                &&& occurrence.reported() == report
                &&& after.progress == before.progress.with_occurrence(
                    occurrence.identity(),
                    OccurrenceState::Emitted,
                    scope,
                )
            },
            Err(error) => {
                &&& submitted.1 == Err::<Option<u64>, EmitError>(error)
                &&& after.progress == (log_producer::Progress {
                    occurrences: before.progress.occurrences.remove(before.next_occurrence),
                    ..before.progress
                })
            },
        }
    }
}

/// Whether `result` answers a diagnostic after it was sent, or after it could not be.
pub open spec fn is_diagnosis_settled(
    before: Producers,
    account: Account,
    id: DiagnosticOccurrenceId,
    scope: DiagnosticScope,
    delivered: bool,
    result: Result<DiagnosticOccurrenceId, EmitError>,
    after: Producers,
    account_after: Account,
) -> bool {
    if delivered {
        &&& result == Ok::<DiagnosticOccurrenceId, EmitError>(id)
        &&& after == before
        &&& account_after == account
    } else {
        &&& result == Err::<DiagnosticOccurrenceId, EmitError>(EmitError::Closed)
        &&& after == before.with_progress(before.progress.without_occurrence(id))
        &&& account_after == account.undelivered(scope.event_code())
    }
}

/// Whether `result` answers the wish to close the run with a diagnostic.
pub open spec fn is_prepared(
    before: Producers,
    account: Account,
    scope: DiagnosticScope,
    report: DiagnosticReport,
    result: Result<PreparedTerminalDiagnostic, PrepareTerminalDiagnosticError>,
    after: Producers,
    account_after: Account,
) -> bool {
    match result {
        Ok(prepared) => {
            &&& !before.progress.finalized
            &&& before.next_occurrence < u64::MAX
            &&& prepared.held().identity().number() == before.next_occurrence
            &&& prepared.held().about() == scope
            &&& prepared.held().reported() == report
            &&& account_after == account
            &&& after == (Producers {
                progress: (log_producer::Progress {
                    terminal_preparing: true,
                    ..before.progress
                }).with_occurrence(
                    prepared.held().identity(),
                    OccurrenceState::PreparedTerminal,
                    scope,
                ),
                next_occurrence: (before.next_occurrence + 1) as u64,
            })
        },
        Err(PrepareTerminalDiagnosticError::Closed) => {
            &&& before.progress.finalized
            &&& after == before
            &&& account_after == account
        },
        Err(PrepareTerminalDiagnosticError::OccurrenceIdExhausted) => {
            &&& !before.progress.finalized
            &&& before.next_occurrence == u64::MAX
            &&& after == before
            &&& account_after == account.failed(ProjectLogFailureKey::OccurrenceIdExhausted)
        },
    }
}

/// Whether `outcome` answers the wish to end the run.
pub open spec fn is_finalized(
    before: Producers,
    context: ProjectLogContext,
    result: RunFinished,
    terminal: Seq<PreparedTerminalDiagnostic>,
    performance: RunPerformanceSnapshot,
    force: bool,
    outcome: Result<FinalizeRequest, FinishError>,
    after: Producers,
) -> bool {
    let error = log_producer::finish_error(
        before.progress,
        terminal,
        result.named(),
        context.for_command(),
        force,
    );
    &&& after == before.with_progress(log_producer::after_finish(before.progress, error))
    &&& match outcome {
        Ok(request) => {
            &&& error is None
            &&& request.result == result
            &&& request.performance == performance
            &&& log_terminal::strictly_ascending(
                log_terminal::numbers_of(request.terminal_diagnostics@),
            )
            &&& request.terminal_diagnostics@.to_multiset() == log_terminal::occurrences_of(
                terminal,
            ).to_multiset()
        },
        Err(found) => error == Some(found),
    }
}

/// The entry to the log of one run.
#[derive(Debug)]
pub struct ProjectLogger {
    context: ProjectLogContext,
    state: ProducerState,
    next_occurrence: u64,
}

impl View for ProjectLogger {
    type V = Producers;

    closed spec fn view(&self) -> Producers {
        Producers { progress: self.state@, next_occurrence: self.next_occurrence }
    }
}

impl ProjectLogger {
    pub closed spec fn well_formed(&self) -> bool {
        self.state.well_formed() && self.next_occurrence >= 1
    }

    /// The run that is logged.
    pub closed spec fn within(&self) -> ProjectLogContext {
        self.context
    }

    /// What holds of the progress of every log.
    pub proof fn lemma_coherent(&self)
        requires
            self.well_formed(),
        ensures
            self@.progress.coherent(),
            self@.next_occurrence >= 1,
    {
        self.state.lemma_coherent();
    }

    pub fn new(context: ProjectLogContext) -> (logger: Self)
        ensures
            logger.well_formed(),
            logger.within() == context,
            logger@ == Producers::initial(),
    {
        ProjectLogger { context, state: ProducerState::new(), next_occurrence: 1 }
    }

    /// A log whose diagnostics are numbered from `next_occurrence` on.
    pub fn numbered_from(context: ProjectLogContext, next_occurrence: u64) -> (logger: Self)
        requires
            next_occurrence >= 1,
        ensures
            logger.well_formed(),
            logger.within() == context,
            logger@ == (Producers { next_occurrence, ..Producers::initial() }),
    {
        ProjectLogger { context, state: ProducerState::new(), next_occurrence }
    }

    /// The next diagnostic number; numbers start at one and are never given twice.
    fn allocate_occurrence(&mut self, account: &mut LogAccount) -> (result: Result<
        DiagnosticOccurrenceId,
        OccurrenceIdExhausted,
    >)
        requires
            old(self).well_formed(),
            old(account).well_formed(),
        ensures
            final(self).well_formed(),
            final(account).well_formed(),
            final(self).within() == old(self).within(),
            final(self)@.progress == old(self)@.progress,
            match result {
                Ok(id) => {
                    &&& old(self)@.next_occurrence < u64::MAX
                    &&& id.number() == old(self)@.next_occurrence
                    &&& final(self)@.next_occurrence == old(self)@.next_occurrence + 1
                    &&& final(account)@ == old(account)@
                },
                Err(_) => {
                    &&& old(self)@.next_occurrence == u64::MAX
                    &&& final(self)@ == old(self)@
                    &&& final(account)@ == old(account)@.failed(
                        ProjectLogFailureKey::OccurrenceIdExhausted,
                    )
                },
            },
    {
        if self.next_occurrence == u64::MAX {
            account.record(ProjectLogFailureKey::OccurrenceIdExhausted);
            return Err(OccurrenceIdExhausted);
        }
        let id: u64 = self.next_occurrence;
        self.next_occurrence = id + 1;
        DiagnosticOccurrenceId::new(id)
    }

    /// The first event of every run.
    pub fn run_started(&self, account: &mut LogAccount, now: i128) -> (result: Result<
        QueuedEvent,
        EmitError,
    >)
        requires
            self.well_formed(),
            old(account).well_formed(),
        ensures
            final(account).well_formed(),
            ({
                let submitted = old(account)@.submitted(
                    self@.progress.connected,
                    ProjectLogCode::RunStarted,
                    PermitKind::Required,
                );
                &&& final(account)@ == submitted.0
                &&& match result {
                    Ok(queued) => {
                        &&& submitted.1 == Ok::<Option<u64>, EmitError>(Some(queued.sequence))
                        &&& queued.event == ProjectLogEvent::RunStarted
                        &&& queued.emitted_at == now
                        &&& queued.permit == PermitKind::Required
                    },
                    Err(error) => submitted.1 == Err::<Option<u64>, EmitError>(error),
                }
            }),
    {
        match account.enqueue(self.state.is_connected(), now, ProjectLogEvent::RunStarted) {
            Ok(Some(queued)) => Ok(queued),
            Ok(None) => Err(EmitError::Closed),
            Err(error) => Err(error),
        }
    }

    /// Checks an event and prepares it for the queue. How urgently it is delivered is a
    /// property of the event, not a choice of the caller. A task event that is refused, also
    /// by the queue, leaves no trace; one that is dropped for want of room was accepted.
    pub fn emit(&mut self, account: &mut LogAccount, now: i128, event: ProjectLogEvent) -> (result:
        Result<Submission, EmitError>)
        requires
            old(self).well_formed(),
            old(account).well_formed(),
        ensures
            final(self).well_formed(),
            final(account).well_formed(),
            final(self).within() == old(self).within(),
            is_emitted(
                old(self)@,
                old(account)@,
                old(self).within(),
                now,
                event,
                result,
                final(self)@,
                final(account)@,
            ),
    {
        match self.state.validate_event(&event, &self.context) {
            Err(error) => Err(error),
            Ok(EmitDisposition::Accepted) => {
                match account.take_place(self.state.is_connected(), &event) {
                    Ok(Some((sequence, permit))) => Ok(
                        Submission::Send(QueuedEvent { emitted_at: now, sequence, event, permit }),
                    ),
                    Ok(None) => Ok(Submission::Settled(EmitDisposition::BestEffortDropped)),
                    Err(error) => {
                        self.state.withdraw(&event);
                        Err(error)
                    },
                }
            },
            Ok(disposition) => Ok(Submission::Settled(disposition)),
        }
    }

    /// Settles an event that was sent; `undelivered` is the event if it could not be sent.
    /// Such a task event leaves no trace.
    pub fn sent(&mut self, account: &mut LogAccount, undelivered: Option<QueuedEvent>) -> (result:
        Result<EmitDisposition, EmitError>)
        requires
            old(self).well_formed(),
            old(account).well_formed(),
            undelivered matches Some(queued) ==> queued.permit == PermitKind::BestEffort ==> old(
                account,
            )@.waiting > 0,
        ensures
            final(self).well_formed(),
            final(account).well_formed(),
            final(self).within() == old(self).within(),
            is_settled(
                old(self)@,
                old(account)@,
                undelivered,
                result,
                final(self)@,
                final(account)@,
            ),
    {
        match undelivered {
            None => Ok(EmitDisposition::Accepted),
            Some(queued) => {
                account.release(queued.permit);
                account.undelivered(queued.event.code());
                self.state.withdraw(&queued.event);
                Err(EmitError::Closed)
            },
        }
    }

    /// Numbers a diagnostic and prepares it for the queue.
    pub fn record_diagnostic(
        &mut self,
        account: &mut LogAccount,
        now: i128,
        scope: DiagnosticScope,
        report: DiagnosticReport,
    ) -> (result: Result<QueuedEvent, EmitError>)
        requires
            old(self).well_formed(),
            old(account).well_formed(),
        ensures
            final(self).well_formed(),
            final(account).well_formed(),
            final(self).within() == old(self).within(),
            is_diagnosed(
                old(self)@,
                old(account)@,
                now,
                scope,
                report,
                result,
                final(self)@,
                final(account)@,
            ),
    {
        if self.state.is_closed() {
            return Err(EmitError::Closed);
        }
        let id = match self.allocate_occurrence(account) {
            Ok(id) => id,
            Err(_) => {
                return Err(EmitError::OccurrenceIdExhausted);
            },
        };
        let ghost before = self.state@;
        self.state.register(id, OccurrenceState::Emitted, scope);
        let occurrence = DiagnosticOccurrence::new(id, scope, report);
        match account.enqueue(self.state.is_connected(), now, ProjectLogEvent::Diagnostic { occurrence }) {
            Ok(Some(queued)) => Ok(queued),
            Ok(None) => Err(EmitError::Closed),
            Err(error) => {
                self.state.forget(id);
                assert(self.state@.occurrences =~= before.occurrences.remove(id.number()));
                Err(error)
            },
        }
    }

    /// Settles a diagnostic that was sent, or could not be sent; then it is forgotten.
    pub fn diagnostic_sent(
        &mut self,
        account: &mut LogAccount,
        id: DiagnosticOccurrenceId,
        scope: DiagnosticScope,
        delivered: bool,
    ) -> (result: Result<DiagnosticOccurrenceId, EmitError>)
        requires
            old(self).well_formed(),
            old(account).well_formed(),
        ensures
            final(self).well_formed(),
            final(account).well_formed(),
            final(self).within() == old(self).within(),
            is_diagnosis_settled(
                old(self)@,
                old(account)@,
                id,
                scope,
                delivered,
                result,
                final(self)@,
                final(account)@,
            ),
    {
        if delivered {
            return Ok(id);
        }
        account.undelivered(scope.code());
        self.state.forget(id);
        Err(EmitError::Closed)
    }

    /// Numbers a diagnostic that will be written at the end of the run. From then on no
    /// other event is taken; without a number everything stays open.
    pub fn prepare_terminal_diagnostic(
        &mut self,
        account: &mut LogAccount,
        scope: DiagnosticScope,
        report: DiagnosticReport,
    ) -> (result: Result<PreparedTerminalDiagnostic, PrepareTerminalDiagnosticError>)
        requires
            old(self).well_formed(),
            old(account).well_formed(),
        ensures
            final(self).well_formed(),
            final(account).well_formed(),
            final(self).within() == old(self).within(),
            is_prepared(
                old(self)@,
                old(account)@,
                scope,
                report,
                result,
                final(self)@,
                final(account)@,
            ),
    {
        if self.state.is_finalized() {
            return Err(PrepareTerminalDiagnosticError::Closed);
        }
        let id = match self.allocate_occurrence(account) {
            Ok(id) => id,
            Err(_) => {
                return Err(PrepareTerminalDiagnosticError::OccurrenceIdExhausted);
            },
        };
        self.state.begin_terminal();
        self.state.register(id, OccurrenceState::PreparedTerminal, scope);
        Ok(PreparedTerminalDiagnostic::new(DiagnosticOccurrence::new(id, scope, report)))
    }

    /// The counters of a translation, by the task events that the log accepted.
    pub fn translation_task_counters(&self, planned: u64) -> (result: Result<
        TranslationTaskCounters,
        EmitError,
    >)
        requires
            self.well_formed(),
        ensures
            match result {
                Ok(counters) => {
                    &&& log_producer::counters_owed(self@.progress, planned)
                    &&& counters.planned == planned
                    &&& counters.not_started == planned - self@.progress.started.len()
                    &&& self@.progress.agrees(counters)
                },
                Err(error) => error == EmitError::TaskSummaryMismatch && !log_producer::counters_owed(
                    self@.progress,
                    planned,
                ),
            },
    {
        self.state.translation_task_counters(planned)
    }

    /// Ends the run: the request is the last thing the writer gets.
    pub fn finalize(
        &mut self,
        result: RunFinished,
        terminal: Vec<PreparedTerminalDiagnostic>,
        performance: RunPerformanceSnapshot,
        force: bool,
    ) -> (outcome: Result<FinalizeRequest, FinishError>)
        requires
            old(self).well_formed(),
        ensures
            final(self).well_formed(),
            final(self).within() == old(self).within(),
            is_finalized(
                old(self)@,
                old(self).within(),
                result,
                terminal@,
                performance,
                force,
                outcome,
                final(self)@,
            ),
    {
        match self.state.finish(&result, terminal, &self.context, force) {
            Ok(terminal_diagnostics) => Ok(
                FinalizeRequest { terminal_diagnostics, performance, result },
            ),
            Err(error) => Err(error),
        }
    }

    /// Lets go of the writer.
    pub fn close_producer(&mut self)
        requires
            old(self).well_formed(),
        ensures
            final(self).well_formed(),
            final(self).within() == old(self).within(),
            final(self)@ == old(self)@.with_progress(
                log_producer::Progress { connected: false, ..old(self)@.progress },
            ),
    {
        self.state.disconnect();
    }
}

} // verus!
