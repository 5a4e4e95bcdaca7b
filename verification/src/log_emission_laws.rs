//! What becomes of events, diagnostics and the end of a run on their way to the writer.

use vstd::prelude::*;
use crate::diagnostic::{Diagnostic, DiagnosticReport, IoError, ObservabilityIssue, SafePath};
use crate::log_acceptance;
use crate::log_errors::PrepareTerminalDiagnosticError;
use crate::log_event::{
    DiagnosticOccurrenceId, DiagnosticScope, ProjectLogContext, ProjectLogEvent,
    ProjectLogFailureKey, RunFinished,
};
use crate::log_laws;
use crate::log_producer;
use crate::log_producer::{EmitDisposition, EmitError, FinishError};
use crate::log_runtime;
use crate::log_runtime::{Account, FinalizeRequest, Producers, QueuedEvent, Submission};
use crate::log_session;
use crate::log_terminal::PreparedTerminalDiagnostic;
use crate::performance::RunPerformanceSnapshot;

verus! {

/// Whether an event may be dropped when too many wait.
pub open spec fn may_be_dropped(event: ProjectLogEvent) -> bool {
    event is PhaseStarted || event is PhaseCompleted || event is TaskStarted || event is RetrySummary
        || event is LuaPrint
}

/// An event that is sent carries what was emitted, when it was, and the next number. It is
/// put aside only as a second request to cancel, or dropped when it may be and 8192 others
/// wait.
pub proof fn emitted_events_are_sent_as_they_are(
    before: Producers,
    account: Account,
    context: ProjectLogContext,
    now: i128,
    event: ProjectLogEvent,
    result: Result<Submission, EmitError>,
    after: Producers,
    account_after: Account,
)
    requires
        log_runtime::is_emitted(
            before,
            account,
            context,
            now,
            event,
            result,
            after,
            account_after,
        ),
    ensures
        after.next_occurrence == before.next_occurrence,
        result matches Ok(Submission::Send(queued)) ==> {
            &&& queued.event == event
            &&& queued.emitted_at == now
            &&& queued.sequence == account.next_sequence
            &&& queued.permit is BestEffort <==> may_be_dropped(event)
            &&& account_after.next_sequence == account.next_sequence + 1
            &&& account_after.health == account.health
            &&& account_after.waiting == account.waiting + (if may_be_dropped(event) {
                1nat
            } else {
                0nat
            })
            &&& before.progress.connected
        },
        result matches Ok(Submission::Settled(disposition)) ==> {
            &&& !(disposition is Accepted)
            &&& disposition is DuplicateSuppressed <==> event is CancellationRequested
            &&& disposition is DuplicateSuppressed ==> after == before && account_after == account
                && before.progress.cancellation_requested
            &&& disposition is BestEffortDropped ==> may_be_dropped(event) && account.waiting >= 8_192
                && account_after.next_sequence == account.next_sequence
        },
{
    log_laws::only_small_events_share_places(event);
    log_laws::events_are_numbered_and_sent(
        account,
        before.progress.connected,
        event.kind(),
        log_runtime::permit_of(event),
    );
}

/// An event that the log takes is sent, unless it is dropped, no number is left or the writer
/// is gone; nothing else keeps it from being sent.
pub proof fn taken_events_are_sent(
    before: Producers,
    account: Account,
    context: ProjectLogContext,
    now: i128,
    event: ProjectLogEvent,
    result: Result<Submission, EmitError>,
    after: Producers,
    account_after: Account,
)
    requires
        log_runtime::is_emitted(
            before,
            account,
            context,
            now,
            event,
            result,
            after,
            account_after,
        ),
    ensures
        ({
            let told = log_acceptance::verdict(
                before.progress,
                event,
                context.for_command(),
                context.for_engine(),
            );
            let crowded = may_be_dropped(event) && account.waiting >= 8_192;
            let accepted = told.1 == Ok::<EmitDisposition, EmitError>(EmitDisposition::Accepted);
            &&& (result matches Ok(submission) && submission is Send) <==> accepted && !crowded
                && account.next_sequence < u64::MAX && before.progress.connected
            &&& result == Ok::<Submission, EmitError>(
                Submission::Settled(EmitDisposition::BestEffortDropped),
            ) <==> accepted && crowded
            &&& told.1 matches Err(error) ==> result == Err::<Submission, EmitError>(error)
                && account_after == account
            &&& accepted && !crowded && account.next_sequence == u64::MAX ==> result == Err::<
                Submission,
                EmitError,
            >(EmitError::SequenceExhausted)
            &&& accepted && !crowded && account.next_sequence < u64::MAX && !before.progress.connected
                ==> result == Err::<Submission, EmitError>(EmitError::Closed)
            &&& result is Ok ==> after.progress == told.0
        }),
{
    log_laws::only_small_events_share_places(event);
    log_laws::events_are_numbered_and_sent(
        account,
        before.progress.connected,
        event.kind(),
        log_runtime::permit_of(event),
    );
}

/// A refused task event leaves the producers as they were, whoever refused it; so does every
/// event that the log itself refuses.
pub proof fn refused_events_leave_no_trace(
    before: Producers,
    account: Account,
    context: ProjectLogContext,
    now: i128,
    event: ProjectLogEvent,
    result: Result<Submission, EmitError>,
    after: Producers,
    account_after: Account,
)
    requires
        before.progress.coherent(),
        result is Err,
        log_runtime::is_emitted(
            before,
            account,
            context,
            now,
            event,
            result,
            after,
            account_after,
        ),
        event is TaskStarted || event is TaskFinished || log_acceptance::verdict(
            before.progress,
            event,
            context.for_command(),
            context.for_engine(),
        ).1 is Err,
    ensures
        after == before,
{
    let (command, engine) = (context.for_command(), context.for_engine());
    let told = log_acceptance::verdict(before.progress, event, command, engine);
    if told.1 is Err {
        log_laws::refused_events_change_nothing(before.progress, event, command, engine);
    } else {
        log_laws::withdrawn_task_events_leave_no_trace(before.progress, event, command, engine);
    }
}

/// An event that reached the queue is accepted. One that did not is counted as lost, gives
/// its place back, and a task event leaves the producers as they were before it.
pub proof fn undelivered_events_leave_no_trace(
    before: Producers,
    account: Account,
    context: ProjectLogContext,
    now: i128,
    event: ProjectLogEvent,
    queued: QueuedEvent,
    between: Producers,
    account_between: Account,
    delivered: bool,
    result: Result<EmitDisposition, EmitError>,
    after: Producers,
    account_after: Account,
)
    requires
        before.progress.coherent(),
        log_runtime::is_emitted(
            before,
            account,
            context,
            now,
            event,
            Ok(Submission::Send(queued)),
            between,
            account_between,
        ),
        log_runtime::is_settled(
            between,
            account_between,
            if delivered {
                None
            } else {
                Some(queued)
            },
            result,
            after,
            account_after,
        ),
    ensures
        delivered ==> result == Ok::<EmitDisposition, EmitError>(EmitDisposition::Accepted) && after
            == between && account_after == account_between,
        !delivered ==> {
            &&& result == Err::<EmitDisposition, EmitError>(EmitError::Closed)
            &&& account_after.waiting == account.waiting
            &&& account_after.health == account.health.recorded(
                ProjectLogFailureKey::ChannelClosed { code: Some(event.kind()) },
            ).recorded(ProjectLogFailureKey::NotPersisted { code: event.kind() })
            &&& event is TaskStarted || event is TaskFinished ==> after == before
            &&& !(event is TaskStarted || event is TaskFinished) ==> after == between
        },
{
    let (command, engine) = (context.for_command(), context.for_engine());
    emitted_events_are_sent_as_they_are(
        before,
        account,
        context,
        now,
        event,
        Ok(Submission::Send(queued)),
        between,
        account_between,
    );
    log_laws::places_are_given_back(account_between, event.kind(), queued.permit);
    log_laws::other_events_are_not_taken_back(between.progress, event);
    if event is TaskStarted || event is TaskFinished {
        log_laws::withdrawn_task_events_leave_no_trace(before.progress, event, command, engine);
    }
}

/// A diagnostic gets the next number and is sent with its scope and its report; from then on
/// events may refer to it. One that cannot be sent is not known afterwards, though its number
/// is spent.
pub proof fn diagnostics_are_numbered_in_turn(
    before: Producers,
    account: Account,
    now: i128,
    scope: DiagnosticScope,
    report: DiagnosticReport,
    result: Result<QueuedEvent, EmitError>,
    after: Producers,
    account_after: Account,
)
    requires
        log_runtime::is_diagnosed(
            before,
            account,
            now,
            scope,
            report,
            result,
            after,
            account_after,
        ),
    ensures
        ({
            let open = log_acceptance::is_open(before.progress);
            let numbered = open && before.next_occurrence < u64::MAX;
            &&& result is Ok <==> numbered && account.next_sequence < u64::MAX
                && before.progress.connected
            &&& !open ==> result == Err::<QueuedEvent, EmitError>(EmitError::Closed) && after == before
                && account_after == account
            &&& open && before.next_occurrence == u64::MAX ==> result == Err::<QueuedEvent, EmitError>(
                EmitError::OccurrenceIdExhausted,
            ) && after == before && account_after.health == account.health.recorded(
                ProjectLogFailureKey::OccurrenceIdExhausted,
            )
            &&& numbered ==> after.next_occurrence == before.next_occurrence + 1
            &&& numbered && account.next_sequence == u64::MAX ==> result == Err::<
                QueuedEvent,
                EmitError,
            >(EmitError::SequenceExhausted)
            &&& numbered && account.next_sequence < u64::MAX && !before.progress.connected ==> result
                == Err::<QueuedEvent, EmitError>(EmitError::Closed)
            &&& numbered && result is Err ==> !after.progress.occurrences.dom().contains(
                before.next_occurrence,
            )
            &&& result matches Ok(queued) ==> {
                &&& queued.emitted_at == now
                &&& queued.sequence == account.next_sequence
                &&& queued.permit is Required
                &&& queued.event matches ProjectLogEvent::Diagnostic { occurrence }
                &&& occurrence.identity().number() == before.next_occurrence
                &&& occurrence.about() == scope
                &&& occurrence.reported() == report
                &&& log_acceptance::is_logged_about(after.progress, occurrence.identity(), scope)
            }
            &&& after.progress == log_producer::Progress {
                occurrences: after.progress.occurrences,
                ..before.progress
            }
        }),
{
    log_laws::events_are_numbered_and_sent(
        account,
        before.progress.connected,
        scope.event_code(),
        log_runtime::PermitKind::Required,
    );
}

/// A diagnostic that could not be sent is forgotten and counted as lost; one that was sent
/// stays known.
pub proof fn unsent_diagnostics_are_forgotten(
    before: Producers,
    account: Account,
    id: DiagnosticOccurrenceId,
    scope: DiagnosticScope,
    delivered: bool,
    result: Result<DiagnosticOccurrenceId, EmitError>,
    after: Producers,
    account_after: Account,
    other: DiagnosticOccurrenceId,
)
    requires
        log_runtime::is_diagnosis_settled(
            before,
            account,
            id,
            scope,
            delivered,
            result,
            after,
            account_after,
        ),
    ensures
        result == (if delivered {
            Ok::<DiagnosticOccurrenceId, EmitError>(id)
        } else {
            Err(EmitError::Closed)
        }),
        delivered ==> after == before && account_after == account,
        !delivered ==> !after.progress.occurrences.dom().contains(id.number()),
        !delivered && other != id ==> after.progress.registration(other)
            == before.progress.registration(other),
        !delivered ==> account_after.health == account.health.recorded(
            ProjectLogFailureKey::ChannelClosed { code: Some(scope.event_code()) },
        ).recorded(ProjectLogFailureKey::NotPersisted { code: scope.event_code() }),
        after.next_occurrence == before.next_occurrence,
{
    if other.number() == id.number() {
        other.lemma_number_identifies(id);
    }
}

/// A closing diagnostic gets the next number unless the run has ended or no number is left;
/// from then on the log takes no other event.
pub proof fn closing_diagnostics_close_the_log(
    before: Producers,
    account: Account,
    scope: DiagnosticScope,
    report: DiagnosticReport,
    result: Result<PreparedTerminalDiagnostic, PrepareTerminalDiagnosticError>,
    after: Producers,
    account_after: Account,
)
    requires
        log_runtime::is_prepared(before, account, scope, report, result, after, account_after),
    ensures
        result is Ok <==> !before.progress.finalized && before.next_occurrence < u64::MAX,
        (result matches Err(error) && error is Closed) <==> before.progress.finalized,
        result is Err ==> after == before,
        (result matches Err(error) && error is OccurrenceIdExhausted) ==> account_after.health
            == account.health.recorded(ProjectLogFailureKey::OccurrenceIdExhausted),
        !(result matches Err(error) && error is OccurrenceIdExhausted) ==> account_after == account,
        result matches Ok(prepared) ==> {
            let id = prepared.held().identity();
            &&& id.number() == before.next_occurrence
            &&& after.next_occurrence == before.next_occurrence + 1
            &&& prepared.held().about() == scope
            &&& prepared.held().reported() == report
            &&& !log_acceptance::is_open(after.progress)
            &&& !after.progress.finalized
            &&& after.progress.occurrences.dom().contains(id.number())
            &&& after.progress.occurrences[id.number()].state is PreparedTerminal
            &&& after.progress.occurrences[id.number()].scope == scope
            &&& after.progress == log_producer::Progress {
                occurrences: after.progress.occurrences,
                terminal_preparing: true,
                ..before.progress
            }
        },
{
}

/// The diagnostic that the result of a run names.
pub open spec fn named_by(result: RunFinished) -> Option<DiagnosticOccurrenceId> {
    match result {
        RunFinished::Failed { diagnostic } => Some(diagnostic),
        RunFinished::RecoveryRequired { diagnostic } => Some(diagnostic),
        RunFinished::OutcomeUnknown { diagnostic } => Some(diagnostic),
        _ => None,
    }
}

/// A run ends with what was given: its result, its counters and the closing diagnostics,
/// these in the order of their numbers. It does exactly when everything is in order, and then
/// takes nothing more.
pub proof fn requests_hold_what_closes_the_run(
    before: Producers,
    context: ProjectLogContext,
    result: RunFinished,
    terminal: Seq<PreparedTerminalDiagnostic>,
    performance: RunPerformanceSnapshot,
    force: bool,
    outcome: Result<FinalizeRequest, FinishError>,
    after: Producers,
    i: int,
    j: int,
)
    requires
        log_runtime::is_finalized(
            before,
            context,
            result,
            terminal,
            performance,
            force,
            outcome,
            after,
        ),
    ensures
        outcome is Ok <==> ({
            &&& !before.progress.finalized
            &&& force || !log_acceptance::has_open_end(before.progress, context.for_command())
            &&& log_acceptance::closes_properly(before.progress, terminal)
            &&& log_acceptance::names_a_known_one(before.progress, terminal, named_by(result))
            &&& before.progress.connected
        }),
        after.next_occurrence == before.next_occurrence,
        outcome matches Ok(request) ==> {
            &&& request.result == result
            &&& request.performance == performance
            &&& request.terminal_diagnostics@.len() == terminal.len()
            &&& 0 <= i < terminal.len() ==> request.terminal_diagnostics@.contains(terminal[i].held())
            &&& 0 <= i < j < request.terminal_diagnostics@.len()
                ==> request.terminal_diagnostics@[i].identity().number()
                < request.terminal_diagnostics@[j].identity().number()
            &&& after.progress.finalized && !after.progress.connected
        },
        (outcome matches Err(error) && !(error is ChannelClosed)) ==> after == before,
{
    log_acceptance::runs_end_when_all_is_in_order(
        before.progress,
        terminal,
        result.named(),
        context.for_command(),
        force,
    );
    assert(result.named() == named_by(result));
    if let Ok(request) = outcome {
        let given = crate::log_terminal::occurrences_of(terminal);
        let listed = request.terminal_diagnostics@;
        given.to_multiset_ensures();
        listed.to_multiset_ensures();
        assert(listed.len() == terminal.len());
        if 0 <= i < terminal.len() {
            assert(given[i] == terminal[i].held());
            assert(given.contains(terminal[i].held()));
            assert(listed.to_multiset().count(terminal[i].held()) > 0);
        }
        if 0 <= i < j < listed.len() {
            let numbers = crate::log_terminal::numbers_of(listed);
            assert(numbers[i] < numbers[j]);
        }
    }
}

/// A run that is dropped before it finished tells that its outcome is unknown, with the
/// reason that was set as its one closing diagnostic; one that finished says nothing. Nobody
/// can write to the log of a dropped run.
pub proof fn dropped_runs_are_of_unknown_outcome(
    before: Producers,
    account: Account,
    finished: bool,
    reason: Option<DiagnosticReport>,
    performance: RunPerformanceSnapshot,
    request: Option<FinalizeRequest>,
    after: Producers,
    account_after: Account,
)
    requires
        log_session::is_dropped(
            before,
            account,
            finished,
            reason,
            performance,
            request,
            after,
            account_after,
        ),
    ensures
        finished ==> request is None && after == before && account_after == account,
        !finished ==> !after.progress.connected,
        !finished && !before.progress.finalized && reason is Some && before.next_occurrence < u64::MAX
            && before.progress.connected <==> request is Some,
        request matches Some(request) ==> {
            &&& request.result matches RunFinished::OutcomeUnknown { diagnostic }
            &&& diagnostic.number() == before.next_occurrence
            &&& request.terminal_diagnostics@.len() == 1
            &&& request.terminal_diagnostics@[0].identity() == diagnostic
            &&& request.terminal_diagnostics@[0].about() is Run
            &&& Some(request.terminal_diagnostics@[0].reported()) == reason
            &&& request.performance == performance
            &&& after.progress.finalized
            &&& account_after == account
        },
{
}

/// A run is finished when its request reached the writer; otherwise it stays to be dropped,
/// for the reason that the channel was closed, and everything that would have closed it is
/// lost.
pub proof fn runs_finish_when_their_request_is_taken(
    account: Account,
    finished: bool,
    undelivered: Option<FinalizeRequest>,
    result: Result<(), FinishError>,
    account_after: Account,
    finished_after: bool,
    reason_after: Option<DiagnosticReport>,
    outcome: Result<FinalizeRequest, FinishError>,
    reason: Option<DiagnosticReport>,
)
    ensures
        log_session::is_finish_settled(
            account,
            finished,
            undelivered,
            result,
            account_after,
            finished_after,
            reason_after,
        ) ==> ({
            &&& result is Ok <==> undelivered is None
            &&& undelivered is None ==> finished_after && reason_after is None && account_after
                == account
            &&& undelivered matches Some(request) ==> {
                &&& result == Err::<(), FinishError>(FinishError::ChannelClosed)
                &&& finished_after == finished
                &&& reason_after matches Some(report)
                &&& report.effect is OutcomeUnknown
                &&& account_after == log_session::request_lost(account, request)
            }
        }),
        log_session::is_reason_after_finish(reason, outcome, reason_after) ==> ({
            &&& outcome is Ok ==> reason_after == reason
            &&& outcome is Err ==> (reason_after matches Some(report) && report.effect
                is OutcomeUnknown)
        }),
{
}

/// A log that could not be created, or could not be started, has changed nothing. What could
/// not be cleaned up after it follows, with the place where it is.
pub proof fn logs_that_never_started_change_nothing(
    path: SafePath,
    source: IoError,
    cleanup: Result<(), IoError>,
    creation: DiagnosticReport,
    start: DiagnosticReport,
)
    requires
        log_session::is_creation_failure(path, source, creation),
        log_session::is_start_failure(path, source, cleanup, start),
    ensures
        creation.effect is Unchanged,
        creation.related@.len() == 0,
        creation.primary matches Diagnostic::Observability(
            ObservabilityIssue::Create { component, path: place, failure },
        ) && component is ProjectLog && place == path && failure.kind == source.kind
            && failure.raw_os_code == source.raw_os_code,
        start.effect is Unchanged,
        start.primary matches Diagnostic::Observability(
            ObservabilityIssue::WorkerStart { component, failure },
        ) && component is ProjectLog && failure.kind == source.kind && failure.raw_os_code
            == source.raw_os_code,
        cleanup is Ok ==> start.related@.len() == 0,
        cleanup matches Err(error) ==> ({
            &&& start.related@.len() == 1
            &&& start.related@[0].relation is Cleanup
            &&& start.related@[0].report.effect is Unchanged
            &&& start.related@[0].report.related@.len() == 0
            &&& start.related@[0].report.primary matches Diagnostic::Observability(
                ObservabilityIssue::Cleanup { component, path: place, failure },
            )
            &&& component is ProjectLog && place == path && failure.kind == error.kind
                && failure.raw_os_code == error.raw_os_code
        }),
{
}

} // verus!
