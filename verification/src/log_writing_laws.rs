//! What holds of every log that is written: of its records, its closing and its losses.

use vstd::prelude::*;
use vstd::std_specs::convert::FromSpec;
use crate::diagnostic::{
    Diagnostic, DiagnosticReport, IoError, ObservabilityComponent, ObservabilityContractViolation,
    ObservabilityEventCode, ObservabilityIssue, ObservabilityProjectLogPhase,
};
use crate::log_errors;
use crate::log_errors::PrepareTerminalDiagnosticError;
use crate::log_event::{
    ProjectLogCode, ProjectLogEvent, ProjectLogFailureKey, ProjectLogHealthSnapshot, ProjectLogPhase,
};
use crate::log_loop;
use crate::log_loop::{Afterwards, LoopReply, LoopRequest, Stage};
use crate::log_producer::{EmitError, FinishError};
use crate::log_runtime;
use crate::log_runtime::{FinalizeRequest, PermitKind, QueueItem};
use crate::log_session;
use crate::log_writer;
use crate::log_writer::{FlushAttempt, PersistAttempt, ProjectLogRecord, WriterState};

verus! {

/// A refused event is reported as the rule that it broke, with what the refusal carries.
pub proof fn refused_events_name_the_broken_rule(error: EmitError)
    ensures
        error is Closed ==> error.broken_rule() is ProducerClosed,
        error is RuntimeManagedEvent ==> error.broken_rule() is RuntimeManagedEvent,
        error is UnknownDiagnostic ==> error.broken_rule() is UnknownDiagnostic,
        error is InvalidDiagnosticScope ==> error.broken_rule() is InvalidTerminalDiagnostic,
        error is InvalidPhaseTransition ==> error.broken_rule() is InvalidPhaseTransition,
        error is DuplicateRunPlan ==> error.broken_rule() is DuplicateRunPlan,
        error is InvalidRunPlanTransition ==> error.broken_rule() is InvalidRunPlanTransition,
        error is RunPlanCommandMismatch ==> error.broken_rule() is RunPlanCommandMismatch,
        error is InvalidRunPlanTransaction ==> error.broken_rule() is InvalidRunPlanTransaction,
        error is DuplicateTask ==> error.broken_rule() is DuplicateTask,
        error is InvalidTaskTransition ==> error.broken_rule() is InvalidTaskTransition,
        error is InconsistentTaskTotal ==> error.broken_rule() is InconsistentTaskTotal,
        error is DuplicateTranslationFinished ==> error.broken_rule() is DuplicateTranslationFinished,
        error is DuplicatePublication ==> error.broken_rule() is DuplicatePublication,
        error is InvalidPublicationTransition ==> error.broken_rule() is InvalidPublicationTransition,
        error is UnfinishedTasks ==> error.broken_rule() is UnfinishedTasks,
        error is TaskSummaryMismatch ==> error.broken_rule() is TaskSummaryMismatch,
        error is TaskCountDoesNotFit ==> error.broken_rule() is TaskCountDoesNotFit,
        error is EngineSummaryMismatch ==> error.broken_rule() is EngineSummaryMismatch,
        error is InvalidRetrySummary ==> error.broken_rule() is InvalidRetrySummary,
        error is InvalidCancellationCount ==> error.broken_rule() is InvalidCancellationCount,
        error is DiagnosticRequiresFailedTranslation ==> error.broken_rule() is DiagnosticRequiresFailedTranslation,
        error is PlanningFailureStartedTasks ==> error.broken_rule() is PlanningFailureStartedTasks,
        error is OccurrenceIdExhausted ==> error.broken_rule() is OccurrenceIdExhausted,
        error is SequenceExhausted ==> error.broken_rule() is SequenceExhausted,
        error matches EmitError::RuntimeManagedEvent { event } ==> error.broken_rule() == (
        ObservabilityContractViolation::RuntimeManagedEvent {
            event: <ObservabilityEventCode as FromSpec<ProjectLogCode>>::from_spec(event),
        }),
        error matches EmitError::UnknownDiagnostic(id) ==> error.broken_rule() == (
        ObservabilityContractViolation::UnknownDiagnostic { occurrence_id: id.number() }),
        error matches EmitError::InvalidDiagnosticScope(id) ==> error.broken_rule() == (
        ObservabilityContractViolation::InvalidTerminalDiagnostic { occurrence_id: id.number() }),
        error matches EmitError::InvalidPhaseTransition(phase) ==> error.broken_rule() == (
        ObservabilityContractViolation::InvalidPhaseTransition {
            phase: <ObservabilityProjectLogPhase as FromSpec<ProjectLogPhase>>::from_spec(phase),
        }),
        error matches EmitError::DuplicateTask(ordinal) ==> error.broken_rule() == (
        ObservabilityContractViolation::DuplicateTask { ordinal }),
        error matches EmitError::InvalidTaskTransition(ordinal) ==> error.broken_rule() == (
        ObservabilityContractViolation::InvalidTaskTransition { ordinal }),
        error matches EmitError::InvalidRetrySummary { attempted, recovered, exhausted }
            ==> error.broken_rule() == (ObservabilityContractViolation::InvalidRetrySummary {
            attempted,
            recovered,
            exhausted,
        }),
        error matches EmitError::InvalidCancellationCount { confirmed, total } ==> error.broken_rule()
            == (ObservabilityContractViolation::InvalidCancellationCount { confirmed, total }),
{
}

/// A refused end is reported as the rule that it broke, with what the refusal carries.
pub proof fn refused_ends_name_the_broken_rule(error: FinishError)
    ensures
        error is AlreadyFinished ==> error.broken_rule() is AlreadyFinished,
        error is ActivePhase ==> error.broken_rule() is ActivePhase,
        error is UnfinishedTasks ==> error.broken_rule() is UnfinishedTasks,
        error is UnfinalizedRunPlan ==> error.broken_rule() is UnfinalizedRunPlan,
        error is MissingTranslationFinished ==> error.broken_rule() is MissingTranslationFinished,
        error is MissingPublicationFinished ==> error.broken_rule() is MissingPublicationFinished,
        error is UnknownDiagnostic ==> error.broken_rule() is UnknownDiagnostic,
        error is InvalidTerminalDiagnostic ==> error.broken_rule() is InvalidTerminalDiagnostic,
        error is ChannelClosed ==> error.broken_rule() is ChannelClosed,
        error matches FinishError::UnknownDiagnostic(id) ==> error.broken_rule() == (
        ObservabilityContractViolation::UnknownDiagnostic { occurrence_id: id.number() }),
        error matches FinishError::InvalidTerminalDiagnostic(id) ==> error.broken_rule() == (
        ObservabilityContractViolation::InvalidTerminalDiagnostic { occurrence_id: id.number() }),
{
}

/// A refused closing diagnostic is reported as the rule that it broke.
pub proof fn refused_closing_diagnostics_name_the_broken_rule(error: PrepareTerminalDiagnosticError)
    ensures
        error is Closed ==> error.broken_rule() is ProducerClosed,
        error is OccurrenceIdExhausted ==> error.broken_rule() is OccurrenceIdExhausted,
{
}

/// A contract report says which rule of the log was broken, and that nothing changed; at the
/// end of a run the outcome counts as unknown.
pub proof fn broken_rules_are_reported(
    report: DiagnosticReport,
    violation: ObservabilityContractViolation,
    error: FinishError,
)
    ensures
        log_errors::is_contract_report(report, violation) <==> ({
            &&& report.effect is Unchanged
            &&& report.primary == Diagnostic::Observability(
                ObservabilityIssue::Contract {
                    component: ObservabilityComponent::ProjectLog,
                    violation,
                },
            )
            &&& report.related@.len() == 0
        }),
        log_session::is_final_report(report, error) ==> ({
            &&& report.effect is OutcomeUnknown
            &&& report.primary == Diagnostic::Observability(
                ObservabilityIssue::Contract {
                    component: ObservabilityComponent::ProjectLog,
                    violation: error.broken_rule(),
                },
            )
            &&& report.related@.len() == 0
        }),
{
}

/// The days before a year of the Gregorian calendar, counted from the year zero.
pub open spec fn days_before(year: int) -> int {
    365 * year + (year + 3) / 4 - (year + 99) / 100 + (year + 399) / 400
}

/// A moment has a year of four digits from the first day of the year zero to the last day of
/// the year 9999.
pub proof fn years_have_four_digits(nanoseconds: int)
    ensures
        log_writer::has_four_digit_year(nanoseconds) <==> (days_before(0) - days_before(1970))
            * 86_400_000_000_000 <= nanoseconds < (days_before(10_000) - days_before(1970))
            * 86_400_000_000_000,
{
}

/// A record holds the event, its number, the run and its context, and the level and code of
/// the event.
pub proof fn records_hold_their_event(
    record: ProjectLogRecord,
    writer: WriterState,
    emitted_at: i128,
    sequence: u64,
    event: ProjectLogEvent,
)
    requires
        log_loop::is_record(writer, emitted_at, sequence, event, record),
    ensures
        record.sequence == sequence,
        record.payload == event,
        record.run_id@ == writer.run(),
        record.context == writer.within(),
        record.level == event.urgency(),
        record.code == event.kind(),
        event.is_described_by(writer.within().for_command(), record.message),
        log_writer::rfc3339_text(emitted_at as int) == Some(record.timestamp@),
{
}

/// An event can be recorded unless the file was given up, its number is zero, or its moment
/// has no year of four digits.
pub proof fn most_events_can_be_recorded(writer: WriterState, emitted_at: i128, sequence: u64)
    ensures
        log_loop::can_be_recorded(writer, emitted_at, sequence) <==> !writer.gave_up() && sequence
            >= 1 && log_writer::has_four_digit_year(emitted_at as int),
{
}

/// A run closes with what went wrong with the log, if anything did, then the counters, then
/// the closing diagnostics in their order, and last its result.
pub proof fn runs_close_in_order(
    request: FinalizeRequest,
    degraded: ProjectLogHealthSnapshot,
    i: int,
)
    ensures
        ({
            let events = log_writer::closing_events(request, degraded);
            let count = request.terminal_diagnostics@.len() as int;
            let first = if degraded.failures@.len() == 0 {
                0int
            } else {
                1int
            };
            &&& events.len() == first + 1 + count + 1
            &&& first == 1 ==> events[0] == (ProjectLogEvent::ProjectLogDegraded { health: degraded })
            &&& events[first] == (ProjectLogEvent::PerformanceCounters {
                snapshot: request.performance,
            })
            &&& 0 <= i < count ==> events[first + 1 + i] == (ProjectLogEvent::Diagnostic {
                occurrence: request.terminal_diagnostics@[i],
            })
            &&& events[events.len() - 1] == (ProjectLogEvent::RunFinished { result: request.result })
        }),
{
}

/// When a run cannot be closed, everything that would have closed it is lost, also the word
/// on the log itself.
pub proof fn unclosed_runs_lose_everything(request: FinalizeRequest, i: int)
    ensures
        ({
            let codes = log_writer::closing_codes(request);
            let count = request.terminal_diagnostics@.len() as int;
            &&& codes.len() == count + 3
            &&& codes[0] is ProjectLogDegraded
            &&& codes[1] is PerformanceCounters
            &&& 0 <= i < count ==> codes[2 + i] == (ProjectLogEvent::Diagnostic {
                occurrence: request.terminal_diagnostics@[i],
            }).kind()
            &&& codes[codes.len() - 1] is RunFinished
        }),
{
}

/// The codes of events stand in the order of the events.
pub proof fn codes_stand_in_order(events: Seq<ProjectLogEvent>, i: int)
    requires
        0 <= i < events.len(),
    ensures
        log_writer::codes_of(events).len() == events.len(),
        log_writer::codes_of(events)[i] == events[i].kind(),
{
}

/// Lost events are counted one by one, in order, each under its own code; nothing else of the
/// account changes.
pub proof fn losses_are_counted_one_by_one(
    account: log_runtime::Account,
    codes: Seq<ProjectLogCode>,
    code: ProjectLogCode,
)
    ensures
        account.all_lost(Seq::empty()) == account,
        account.all_lost(codes.push(code)) == (log_runtime::Account {
            health: account.all_lost(codes).health.recorded(
                ProjectLogFailureKey::NotPersisted { code },
            ),
            ..account.all_lost(codes)
        }),
        account.all_unnumbered(Seq::empty()) == account,
        account.all_unnumbered(codes.push(code)) == (log_runtime::Account {
            health: account.all_unnumbered(codes).health.recorded(
                ProjectLogFailureKey::SequenceExhausted,
            ).recorded(ProjectLogFailureKey::NotPersisted { code }),
            ..account.all_unnumbered(codes)
        }),
        account.lost(code) == (log_runtime::Account {
            health: account.health.recorded(ProjectLogFailureKey::NotPersisted { code }),
            ..account
        }),
{
    assert(codes.push(code).drop_last() =~= codes);
}

/// A failed write is counted with the file, the code and what the system said of it.
pub proof fn failed_writes_are_counted(
    writer: WriterState,
    account: log_runtime::Account,
    code: ProjectLogCode,
    attempt: PersistAttempt,
)
    ensures
        ({
            let after = log_loop::attempted(writer, account, code, attempt);
            let lost = ProjectLogFailureKey::NotPersisted { code };
            match attempt {
                PersistAttempt::Written => after == account,
                PersistAttempt::Panicked => after.health == account.health.recorded(lost),
                PersistAttempt::NotEncoded => after.health == account.health.recorded(
                    ProjectLogFailureKey::Serialize { path: writer.file(), code },
                ).recorded(lost),
                PersistAttempt::NotWritten(error) => after.health == account.health.recorded(
                    ProjectLogFailureKey::Write {
                        path: writer.file(),
                        code,
                        io_kind: error.kind,
                        raw_os_code: error.raw_os_code,
                    },
                ).recorded(lost),
            }
        }),
        log_loop::attempted(writer, account, code, attempt).waiting == account.waiting,
        log_loop::attempted(writer, account, code, attempt).next_sequence == account.next_sequence,
        writer.gave_up() ==> log_loop::unrecorded(writer, account, code).health
            == account.health.recorded(ProjectLogFailureKey::NotPersisted { code }),
        !writer.gave_up() ==> log_loop::unrecorded(writer, account, code).health
            == account.health.recorded(
            ProjectLogFailureKey::Serialize { path: writer.file(), code },
        ).recorded(ProjectLogFailureKey::NotPersisted { code }),
        log_loop::unrecorded(writer, account, code).waiting == account.waiting,
        log_loop::unrecorded(writer, account, code).next_sequence == account.next_sequence,
{
}

/// The health after the file was flushed or synchronized.
pub open spec fn noted(
    health: crate::log_health::Health,
    result: Result<(), IoError>,
    key: ProjectLogFailureKey,
) -> crate::log_health::Health {
    if result is Ok {
        health
    } else {
        health.recorded(key)
    }
}

/// A failed flush and a failed synchronization are counted apart, and a panic besides what
/// had failed before it.
pub proof fn failed_flushes_are_counted(
    writer: WriterState,
    account: log_runtime::Account,
    attempt: FlushAttempt,
)
    ensures
        ({
            let after = log_loop::flushed(writer, account, attempt);
            &&& after.waiting == account.waiting
            &&& after.next_sequence == account.next_sequence
            &&& match attempt {
                FlushAttempt::PanickedFlushing => after.health == account.health.recorded(
                    ProjectLogFailureKey::WorkerPanicked,
                ),
                FlushAttempt::PanickedSynchronizing { flushed } => after.health == noted(
                    account.health,
                    flushed,
                    ProjectLogFailureKey::Flush {
                        path: writer.file(),
                        io_kind: flushed->Err_0.kind,
                        raw_os_code: flushed->Err_0.raw_os_code,
                    },
                ).recorded(ProjectLogFailureKey::WorkerPanicked),
                FlushAttempt::Ended { flushed, synced } => after.health == noted(
                    noted(
                        account.health,
                        flushed,
                        ProjectLogFailureKey::Flush {
                            path: writer.file(),
                            io_kind: flushed->Err_0.kind,
                            raw_os_code: flushed->Err_0.raw_os_code,
                        },
                    ),
                    synced,
                    ProjectLogFailureKey::Sync {
                        path: writer.file(),
                        io_kind: synced->Err_0.kind,
                        raw_os_code: synced->Err_0.raw_os_code,
                    },
                ),
            }
        }),
{
}

/// How writing goes on: it survives an event that cannot be encoded, throws away what waits
/// when the file fails, and stops for good after a panic. Each settled event gives its place
/// back.
pub proof fn writing_goes_on_as_it_must(
    stage: Stage,
    writer: WriterState,
    reply: LoopReply,
    before: log_runtime::Account,
    next: Stage,
    after: log_runtime::Account,
)
    requires
        stage.expects(reply),
        stage.leads_to(writer, reply, before, next, after),
    ensures
        match stage {
            Stage::Receiving => match reply->Received_0 {
                None => next == (Stage::Flushing { then_discard: false }) && after.health
                    == before.health.recorded(ProjectLogFailureKey::ChannelClosed { code: None }),
                Some(QueueItem::Event(queued)) => if !writer.gave_up() && queued.sequence != 0
                    && log_writer::has_four_digit_year(queued.emitted_at as int) {
                    &&& next matches Stage::Writing { record, permit }
                    &&& permit == queued.permit
                    &&& record.payload == queued.event
                    &&& record.sequence == queued.sequence
                    &&& after == before
                } else {
                    &&& next is Receiving
                    &&& queued.permit is BestEffort ==> after.waiting == (before.waiting - 1) as nat
                    &&& queued.permit is Required ==> after.waiting == before.waiting
                },
                Some(QueueItem::Finalize(_)) => next is Dating || next is Flushing,
            },
            Stage::Writing { record, permit } => {
                let attempt = reply->Attempted_0;
                &&& attempt is Written || attempt is NotEncoded <==> next is Receiving
                &&& attempt is NotWritten <==> next == (Stage::Discarding { then: Afterwards::Receive })
                &&& attempt is Panicked <==> next is ClosingQueue
                &&& permit is BestEffort ==> after.waiting == (before.waiting - 1) as nat
                &&& permit is Required ==> after.waiting == before.waiting
                &&& after.health == log_loop::attempted(writer, before, record.code, attempt).health
            },
            Stage::ClosingQueue => next == (Stage::Discarding { then: Afterwards::StopAfterPanic })
                && after == before,
            Stage::Discarding { then } => match reply->Taken_0 {
                Some(QueueItem::Event(queued)) => {
                    &&& next == stage
                    &&& after.health == before.health.recorded(
                        ProjectLogFailureKey::NotPersisted { code: queued.event.kind() },
                    )
                    &&& queued.permit is BestEffort ==> after.waiting == (before.waiting - 1) as nat
                    &&& queued.permit is Required ==> after.waiting == before.waiting
                },
                Some(QueueItem::Finalize(request)) => next == stage && after == before.all_lost(
                    log_writer::closing_codes(request),
                ),
                None => {
                    &&& next is Receiving <==> then is Receive
                    &&& next is Finished <==> !(then is Receive)
                    &&& then is StopAfterPanic ==> after.health == before.health.recorded(
                        ProjectLogFailureKey::WorkerPanicked,
                    )
                    &&& !(then is StopAfterPanic) ==> after == before
                },
            },
            Stage::Flushing { then_discard } => {
                &&& then_discard ==> next == (Stage::Discarding { then: Afterwards::Finish })
                &&& !then_discard ==> next is Finished
                &&& after == log_loop::flushed(writer, before, reply->Flushed_0)
            },
            Stage::Dating { number, event, .. } => {
                let now = reply->Time_0;
                !writer.gave_up() && number != 0 && log_writer::has_four_digit_year(now as int) <==> next
                    is WritingLast
            },
            Stage::WritingLast { .. } => {
                &&& reply->Attempted_0 is Panicked <==> next is Discarding
                &&& next is Discarding ==> next == (Stage::Discarding { then: Afterwards::Finish })
            },
            Stage::Finished => false,
        },
{
}

/// The next closing event gets the next number; without a number, or without events, the file
/// is flushed and what still waits is thrown away.
pub proof fn closing_events_are_numbered(
    events: Seq<ProjectLogEvent>,
    account: log_runtime::Account,
)
    ensures
        ({
            let (stage, after) = log_loop::closing(events, account);
            if events.len() > 0 && account.next_sequence < u64::MAX {
                &&& stage matches Stage::Dating { remaining, number, event }
                &&& event == events[0]
                &&& remaining == events.subrange(1, events.len() as int)
                &&& number == account.next_sequence
                &&& after.next_sequence == account.next_sequence + 1
                &&& after.health == account.health
                &&& after.waiting == account.waiting
            } else {
                &&& stage == (Stage::Flushing { then_discard: true })
                &&& after == account.all_unnumbered(log_writer::codes_of(events))
                &&& events.len() == 0 ==> after == account
            }
        }),
{
    if events.len() > 0 {
        assert(events.skip(1) =~= events.subrange(1, events.len() as int));
    } else {
        assert(log_writer::codes_of(events) =~= Seq::empty());
    }
}

/// A request to close the log that nobody took is counted as an undelivered result, and with
/// everything that it would have closed.
pub proof fn lost_requests_are_counted(account: log_runtime::Account, request: FinalizeRequest)
    ensures
        log_session::request_lost(account, request) == (log_runtime::Account {
            health: account.health.recorded(
                ProjectLogFailureKey::ChannelClosed { code: Some(ProjectLogCode::RunFinished) },
            ),
            ..account
        }).all_lost(log_writer::closing_codes(request)),
{
}

/// The writer of a log asks for one thing at a time, and what it writes is the record that it
/// has prepared.
pub proof fn writers_ask_for_what_comes_next(stage: Stage, request: LoopRequest<'_>)
    requires
        log_loop::is_request(stage, request),
    ensures
        stage is Receiving <==> request is Receive,
        stage is Writing || stage is WritingLast <==> request is Write,
        stage is ClosingQueue <==> request is CloseQueue,
        stage is Discarding <==> request is TakeWaiting,
        stage is Dating <==> request is ReadClock,
        stage is Flushing <==> request is Flush,
        stage is Finished <==> request is Nothing,
        stage matches Stage::Writing { record, .. } ==> (request matches LoopRequest::Write {
            record: written,
        } && *written == record),
        stage matches Stage::WritingLast { record, .. } ==> (request matches LoopRequest::Write {
            record: written,
        } && *written == record),
{
}

} // verus!
