//! What holds of every run's log.

use vstd::prelude::*;
use crate::log_acceptance;
use crate::log_event::{
    DiagnosticOccurrenceId, ProjectLogCommand, ProjectLogEngine, ProjectLogEvent,
    ProjectLogFailureKey, ProjectLogPhase, TaskCounterKind, TranslationFinished,
    TranslationTaskCounters,
};
use crate::log_producer;
use crate::log_producer::{EmitDisposition, EmitError, FinishError, PhaseState};
use crate::log_runtime;
use crate::log_terminal::PreparedTerminalDiagnostic;

verus! {

/// No event is taken once the end of the run is being prepared, and none leaves a mark.
pub proof fn closed_log_refuses_events(
    progress: log_producer::Progress,
    event: ProjectLogEvent,
    command: ProjectLogCommand,
    engine: ProjectLogEngine,
)
    requires
        progress.closed(),
    ensures
        log_producer::admitted(progress, event, command, engine) == (
            progress,
            Err::<EmitDisposition, EmitError>(EmitError::Closed),
        ),
{
}

/// Events that the run manages itself cannot be emitted by anyone else.
pub proof fn managed_events_are_refused(
    progress: log_producer::Progress,
    event: ProjectLogEvent,
    command: ProjectLogCommand,
    engine: ProjectLogEngine,
)
    requires
        event is RunStarted || event is RunFinished || event is ProjectLogDegraded
            || event is PerformanceCounters || event is Diagnostic,
    ensures
        log_producer::admitted(progress, event, command, engine).0 == progress,
        log_producer::admitted(progress, event, command, engine).1 is Err,
{
}

/// Every event keeps the progress coherent.
pub proof fn events_keep_coherence(
    progress: log_producer::Progress,
    event: ProjectLogEvent,
    command: ProjectLogCommand,
    engine: ProjectLogEngine,
)
    requires
        progress.coherent(),
        event matches ProjectLogEvent::TaskStarted { task } ==> 1 <= task.number() <= task.count(),
    ensures
        log_producer::admitted(progress, event, command, engine).0.coherent(),
{
    let after = log_producer::admitted(progress, event, command, engine).0;
    if let ProjectLogEvent::TaskStarted { task } = event {
        if after.started != progress.started {
            assert(after.started == progress.started.insert(task.number()));
            assert(after.started.contains(task.number()));
        }
    }
    if let ProjectLogEvent::TaskFinished { task, outcome, .. } = event {
        assert(after.outcomes.dom().subset_of(after.started));
    }
}

/// A refused event leaves the progress as it was.
pub proof fn refused_events_change_nothing(
    progress: log_producer::Progress,
    event: ProjectLogEvent,
    command: ProjectLogCommand,
    engine: ProjectLogEngine,
)
    requires
        progress.coherent(),
        log_producer::admitted(progress, event, command, engine).1 is Err,
    ensures
        log_producer::admitted(progress, event, command, engine).0 == progress,
{
    if let ProjectLogEvent::TaskStarted { task } = event {
        let after = log_producer::admitted(progress, event, command, engine).0;
        if progress.started.contains(task.number()) {
            assert(progress.task_total is Some) by {
                if progress.task_total is None {
                    assert(Set::<u64>::empty().contains(task.number()));
                }
            }
        }
        assert(after.task_total == progress.task_total);
    }
}

/// A task event that the queue does not take leaves no trace: withdrawing it gives back
/// the progress before it, so that the counters follow what reached the log.
pub proof fn withdrawn_task_events_leave_no_trace(
    progress: log_producer::Progress,
    event: ProjectLogEvent,
    command: ProjectLogCommand,
    engine: ProjectLogEngine,
)
    requires
        progress.coherent(),
        event is TaskStarted || event is TaskFinished,
        log_producer::admitted(progress, event, command, engine).1 is Ok,
    ensures
        log_producer::withdrawn(
            log_producer::admitted(progress, event, command, engine).0,
            event,
        ) == progress,
{
    let after = log_producer::admitted(progress, event, command, engine).0;
    let back = log_producer::withdrawn(after, event);
    match event {
        ProjectLogEvent::TaskStarted { task } => {
            assert(back.started =~= progress.started);
            assert(!progress.outcomes.dom().contains(task.number()));
            assert(back.outcomes =~= progress.outcomes);
        },
        ProjectLogEvent::TaskFinished { task, .. } => {
            assert(back.outcomes =~= progress.outcomes);
        },
        _ => {},
    }
}

/// The ways in which a phase may move on.
pub open spec fn moves_on(before: Option<PhaseState>, after: Option<PhaseState>) -> bool {
    ||| before == after
    ||| before is None && after == Some(PhaseState::Started)
    ||| before == Some(PhaseState::Started) && (after == Some(PhaseState::Completed) || after == Some(
        PhaseState::Stopped,
    ))
}

/// A phase starts once, ends once and never comes back.
pub proof fn phases_only_move_on(
    progress: log_producer::Progress,
    event: ProjectLogEvent,
    command: ProjectLogCommand,
    engine: ProjectLogEngine,
    phase: ProjectLogPhase,
)
    ensures
        moves_on(
            progress.phase(phase),
            log_producer::admitted(progress, event, command, engine).0.phase(phase),
        ),
{
}

/// What was said once stays said, and is not accepted again.
pub proof fn single_events_are_accepted_once(
    progress: log_producer::Progress,
    event: ProjectLogEvent,
    command: ProjectLogCommand,
    engine: ProjectLogEngine,
)
    ensures
        ({
            let (after, answer) = log_producer::admitted(progress, event, command, engine);
            &&& progress.cancellation_requested ==> after.cancellation_requested
            &&& progress.run_plan_resolved ==> after.run_plan_resolved
            &&& progress.run_plan_finalized ==> after.run_plan_finalized
            &&& progress.translation_finished ==> after.translation_finished
            &&& progress.publication_started ==> after.publication_started
            &&& progress.publication_finished ==> after.publication_finished
            &&& answer == Ok::<EmitDisposition, EmitError>(EmitDisposition::Accepted) ==> {
                &&& event is CancellationRequested ==> !progress.cancellation_requested
                    && after.cancellation_requested
                &&& event is RunPlanResolved ==> !progress.run_plan_resolved
                    && after.run_plan_resolved
                &&& event is RunPlanFinalized ==> progress.run_plan_resolved
                    && !progress.run_plan_finalized && after.run_plan_finalized
                &&& event is TranslationFinished ==> !progress.translation_finished
                    && after.translation_finished
                &&& event is PublicationStarted ==> !progress.publication_started
                    && after.publication_started
                &&& event is PublicationFinished ==> progress.publication_started
                    && !progress.publication_finished && after.publication_finished
            }
        }),
{
}

/// A diagnostic that an accepted event refers to is already in the log.
pub proof fn references_come_after_their_diagnostic(
    progress: log_producer::Progress,
    event: ProjectLogEvent,
    command: ProjectLogCommand,
    engine: ProjectLogEngine,
)
    requires
        log_producer::admitted(progress, event, command, engine).1 is Ok,
        event.named() is Some,
    ensures
        progress.emitted(event.named()->0),
        log_producer::demanded_scope(event) is Some ==> progress.scope_of(event.named()->0)
            == log_producer::demanded_scope(event),
{
}

/// The result of a translation says what the log says: every started task has ended, and
/// the counters agree with the outcomes. It is told once.
pub proof fn accepted_translation_agrees_with_log(
    progress: log_producer::Progress,
    result: TranslationFinished,
    command: ProjectLogCommand,
    engine: ProjectLogEngine,
)
    requires
        progress.coherent(),
        log_producer::admitted(
            progress,
            ProjectLogEvent::TranslationFinished { result },
            command,
            engine,
        ).1 is Ok,
    ensures
        progress.outcomes.dom() == progress.started,
        match result.counters() {
            Some(counters) => {
                &&& progress.agrees(counters)
                &&& progress.task_total is Some ==> counters.planned == progress.task_total->0
                &&& result is NoWork ==> counters.planned == 0
                &&& result.summary_fits(engine)
            },
            None => progress.started == Set::<u64>::empty(),
        },
        ({
            let event = ProjectLogEvent::TranslationFinished { result };
            let after = log_producer::admitted(progress, event, command, engine).0;
            log_producer::admitted(after, event, command, engine) == (
                after,
                Err::<EmitDisposition, EmitError>(EmitError::DuplicateTranslationFinished),
            )
        }),
{
    log_producer::lemma_all_ended(progress);
    let event = ProjectLogEvent::TranslationFinished { result };
    let after = log_producer::admitted(progress, event, command, engine).0;
    assert(log_producer::reference_error(after, event) is None) by {
        assert(log_producer::reference_error(progress, event) is None);
    }
    if result.counters() is None {
        assert(progress.started =~= Set::<u64>::empty());
    }
}

/// A finished log stays finished: it takes no event, no closing diagnostic and no second
/// result.
pub proof fn finished_log_stays_finished(
    progress: log_producer::Progress,
    event: ProjectLogEvent,
    terminal: Seq<PreparedTerminalDiagnostic>,
    named: Option<DiagnosticOccurrenceId>,
    command: ProjectLogCommand,
    engine: ProjectLogEngine,
    force: bool,
)
    requires
        progress.finalized,
    ensures
        log_producer::admitted(progress, event, command, engine) == (
            progress,
            Err::<EmitDisposition, EmitError>(EmitError::Closed),
        ),
        log_producer::finish_error(progress, terminal, named, command, force) == Some(
            FinishError::AlreadyFinished,
        ),
        log_producer::after_finish(
            progress,
            log_producer::finish_error(progress, terminal, named, command, force),
        ) == progress,
{
}

/// A run that ends normally has left nothing open.
pub proof fn normal_end_leaves_nothing_open(
    progress: log_producer::Progress,
    terminal: Seq<PreparedTerminalDiagnostic>,
    named: Option<DiagnosticOccurrenceId>,
    command: ProjectLogCommand,
    phase: ProjectLogPhase,
)
    requires
        progress.coherent(),
        log_producer::finish_error(progress, terminal, named, command, false) is None,
    ensures
        progress.phase(phase) != Some(PhaseState::Started),
        progress.outcomes.dom() == progress.started,
        progress.run_plan_resolved ==> progress.run_plan_finalized,
        command == ProjectLogCommand::Translate ==> progress.translation_finished,
        progress.publication_started ==> progress.publication_finished,
        named matches Some(id) ==> progress.emitted(id) || progress.prepared(id),
{
    log_producer::lemma_all_ended(progress);
    let key = phase.position() as u64;
    if progress.phase(phase) == Some(PhaseState::Started) {
        assert(progress.phases.dom().contains(key) && progress.phases[key] == PhaseState::Started);
    }
}

/// Event numbers grow: the number of an event is smaller than that of every later one.
pub proof fn event_numbers_grow(account: log_runtime::Account)
    ensures
        match account.numbered() {
            (after, Some(sequence)) => sequence == account.next_sequence && sequence
                < after.next_sequence,
            (after, None) => after.next_sequence == account.next_sequence
                && account.next_sequence == u64::MAX,
        },
{
}

/// A required event is never dropped for want of room, whatever the queue holds.
pub proof fn required_events_are_not_dropped(
    account: log_runtime::Account,
    connected: bool,
    code: crate::log_event::ProjectLogCode,
)
    ensures
        account.submitted(connected, code, log_runtime::PermitKind::Required).1 != Ok::<
            Option<u64>,
            EmitError,
        >(None),
{
}

/// However many best-effort events are submitted, no more than the limit wait at one time.
pub proof fn waiting_events_are_bounded(
    account: log_runtime::Account,
    connected: bool,
    code: crate::log_event::ProjectLogCode,
    permit: log_runtime::PermitKind,
)
    requires
        account.waiting <= log_runtime::BEST_EFFORT_IN_FLIGHT,
    ensures
        account.submitted(connected, code, permit).0.waiting <= log_runtime::BEST_EFFORT_IN_FLIGHT,
{
}

/// The events that may be dropped are those that hold up nobody; they share the places.
pub proof fn only_small_events_share_places(event: ProjectLogEvent)
    ensures
        log_runtime::permit_of(event) is BestEffort <==> event is PhaseStarted || event
            is PhaseCompleted || event is TaskStarted || event is RetrySummary || event is LuaPrint,
{
}

/// What becomes of an event that is handed to the writer. It is dropped only when it may be
/// and 8192 others wait; otherwise it gets the next number, if one is left, and is sent, if
/// the writer is there. What goes wrong is counted, and nothing else.
pub proof fn events_are_numbered_and_sent(
    account: log_runtime::Account,
    connected: bool,
    code: crate::log_event::ProjectLogCode,
    permit: log_runtime::PermitKind,
)
    ensures
        ({
            let (after, answer) = account.submitted(connected, code, permit);
            let crowded = permit is BestEffort && account.waiting >= 8_192;
            let spent = account.next_sequence == u64::MAX;
            let (sent, numbered) = (
                !crowded && !spent && connected,
                !crowded && !spent,
            );
            &&& answer == Ok::<Option<u64>, EmitError>(None) <==> crowded
            &&& answer == Err::<Option<u64>, EmitError>(EmitError::SequenceExhausted) <==> !crowded
                && spent
            &&& answer == Err::<Option<u64>, EmitError>(EmitError::Closed) <==> numbered && !connected
            &&& answer == Ok::<Option<u64>, EmitError>(Some(account.next_sequence)) <==> sent
            &&& numbered ==> after.next_sequence == account.next_sequence + 1
            &&& !numbered ==> after.next_sequence == account.next_sequence
            &&& sent && permit is BestEffort ==> after.waiting == account.waiting + 1
            &&& !(sent && permit is BestEffort) ==> after.waiting == account.waiting
            &&& sent ==> after.health == account.health
            &&& crowded ==> after.health == account.health.recorded(
                ProjectLogFailureKey::BestEffortBackpressure { code },
            )
            &&& !crowded && spent ==> after.health == account.health.recorded(
                ProjectLogFailureKey::SequenceExhausted,
            )
            &&& numbered && !connected ==> after.health == account.health.recorded(
                ProjectLogFailureKey::ChannelClosed { code: Some(code) },
            ).recorded(ProjectLogFailureKey::NotPersisted { code })
        }),
{
}

/// An event that has left the queue gives its place back, and one that could not be sent is
/// counted as lost.
pub proof fn places_are_given_back(
    account: log_runtime::Account,
    code: crate::log_event::ProjectLogCode,
    permit: log_runtime::PermitKind,
)
    requires
        permit is BestEffort ==> account.waiting > 0,
    ensures
        account.acquired(permit).released(permit) == account,
        account.released(permit).waiting == account.waiting - (if permit is BestEffort {
            1int
        } else {
            0int
        }),
        account.released(permit).health == account.health,
        account.released(permit).next_sequence == account.next_sequence,
        account.undelivered(code) == (log_runtime::Account {
            health: account.health.recorded(
                ProjectLogFailureKey::ChannelClosed { code: Some(code) },
            ).recorded(ProjectLogFailureKey::NotPersisted { code }),
            ..account
        }),
{
}

/// Only task events are taken back; the rest of what is known stays.
pub proof fn other_events_are_not_taken_back(
    progress: log_producer::Progress,
    event: ProjectLogEvent,
)
    ensures
        ({
            let back = log_producer::withdrawn(progress, event);
            &&& back == log_producer::Progress {
                started: back.started,
                outcomes: back.outcomes,
                task_total: back.task_total,
                ..progress
            }
            &&& !(event is TaskStarted || event is TaskFinished) ==> back == progress
            &&& event is TaskFinished ==> back.started == progress.started && back.task_total
                == progress.task_total
        }),
{
}

/// The counters that the log vouches for say how its tasks ended, and exist exactly when all
/// of them have and no more were started than planned.
pub proof fn vouched_counters_add_up(
    progress: log_producer::Progress,
    planned: u64,
    counters: TranslationTaskCounters,
)
    requires
        progress.coherent(),
    ensures
        log_producer::counters_owed(progress, planned) <==> ({
            &&& progress.task_total is None || progress.task_total == Some(planned)
            &&& progress.started.len() <= planned
            &&& forall|ordinal: u64| #[trigger]
                progress.started.contains(ordinal) ==> progress.outcomes.dom().contains(ordinal)
        }),
        progress.agrees(counters) && counters.planned == planned ==> (
        log_acceptance::counts_as_logged(progress, counters) <==> (progress.task_total is Some
            ==> progress.task_total == Some(planned))),
        log_acceptance::counts_as_logged(progress, counters) ==> progress.agrees(counters),
{
    log_acceptance::lemma_counts(progress, TaskCounterKind::Complete);
    log_acceptance::lemma_counts(progress, TaskCounterKind::Partial);
    log_acceptance::lemma_counts(progress, TaskCounterKind::Unavailable);
    log_acceptance::lemma_counts(progress, TaskCounterKind::Failed);
    log_acceptance::lemma_counts(progress, TaskCounterKind::Cancelled);
}

} // verus!
