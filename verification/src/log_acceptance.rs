//! When the log takes an event, what the event changes, and why others are refused.

use vstd::prelude::*;
use crate::log_event::{
    DiagnosticOccurrenceId, DiagnosticScope, ProjectLogCommand, ProjectLogEngine, ProjectLogEvent,
    ProjectLogPhase, PublicationFinished, ResolvedRunPlan, RunPlanFinalization,
    TaskCounterKind, TaskFinishedOutcome, TaskPosition, TranslationFinished,
    TranslationTaskCounters,
};
use crate::log_event_laws;
use crate::log_producer;
use crate::log_producer::{EmitDisposition, EmitError, FinishError, OccurrenceState, PhaseState};
use crate::log_terminal::PreparedTerminalDiagnostic;
use crate::ordered_map;
use crate::search;

verus! {

/// What the log makes of an event: the progress after it, and the answer.
pub open spec fn verdict(
    progress: log_producer::Progress,
    event: ProjectLogEvent,
    command: ProjectLogCommand,
    engine: ProjectLogEngine,
) -> (log_producer::Progress, Result<EmitDisposition, EmitError>) {
    log_producer::admitted(progress, event, command, engine)
}

/// The event is taken, and `after` is the progress from then on.
pub open spec fn taken(after: log_producer::Progress) -> (
    log_producer::Progress,
    Result<EmitDisposition, EmitError>,
) {
    (after, Ok(EmitDisposition::Accepted))
}

/// The event is refused and nothing changes.
pub open spec fn refused(progress: log_producer::Progress, error: EmitError) -> (
    log_producer::Progress,
    Result<EmitDisposition, EmitError>,
) {
    (progress, Err(error))
}

/// Whether the log still takes events.
pub open spec fn is_open(progress: log_producer::Progress) -> bool {
    !progress.finalized && !progress.terminal_preparing
}

/// Whether the log holds the diagnostic `id`.
pub open spec fn is_logged(progress: log_producer::Progress, id: DiagnosticOccurrenceId) -> bool {
    progress.occurrences.dom().contains(id.number()) && progress.occurrences[id.number()].state
        == OccurrenceState::Emitted
}

/// Whether the log holds the diagnostic `id` and it is about `scope`.
pub open spec fn is_logged_about(
    progress: log_producer::Progress,
    id: DiagnosticOccurrenceId,
    scope: DiagnosticScope,
) -> bool {
    is_logged(progress, id) && progress.occurrences[id.number()].scope == scope
}

/// How an event is answered that refers to a diagnostic which the log does not hold, or
/// which is about something else: the diagnostic is named, and nothing changes.
pub proof fn references_are_checked_first(
    progress: log_producer::Progress,
    event: ProjectLogEvent,
    id: DiagnosticOccurrenceId,
    command: ProjectLogCommand,
    engine: ProjectLogEngine,
)
    requires
        is_open(progress),
        log_event_laws::carries(event, id),
    ensures
        !is_logged(progress, id) ==> verdict(progress, event, command, engine) == refused(
            progress,
            EmitError::UnknownDiagnostic(id),
        ),
        is_logged(progress, id) && ({
            ||| event is RunPlanFinalized && progress.occurrences[id.number()].scope
                != DiagnosticScope::RunPlan
            ||| event is TaskFinished && progress.occurrences[id.number()].scope
                != DiagnosticScope::TranslationTask
            ||| event is PublicationFinished && progress.occurrences[id.number()].scope
                != DiagnosticScope::Publication
        }) ==> verdict(progress, event, command, engine) == refused(
            progress,
            EmitError::InvalidDiagnosticScope(id),
        ),
{
    log_event_laws::events_refer_to_what_they_carry(event, id);
}

/// A closed log refuses every event, an open one those that the run reports itself.
pub proof fn foreign_events_are_refused(
    progress: log_producer::Progress,
    event: ProjectLogEvent,
    command: ProjectLogCommand,
    engine: ProjectLogEngine,
)
    ensures
        !is_open(progress) ==> verdict(progress, event, command, engine) == refused(
            progress,
            EmitError::Closed,
        ),
        is_open(progress) && (event is RunStarted || event is ProjectLogDegraded
            || event is PerformanceCounters || event is Diagnostic || event
            == (ProjectLogEvent::RunFinished {
            result: crate::log_event::RunFinished::Succeeded,
        })) ==> verdict(progress, event, command, engine) == refused(
            progress,
            EmitError::RuntimeManagedEvent { event: event.kind() },
        ),
        event is RunFinished ==> verdict(progress, event, command, engine).1 is Err,
        (verdict(progress, event, command, engine).1 matches Err(error) && error is Closed) ==> !is_open(
            progress,
        ),
{
    log_event_laws::codes_say_what_happened(event);
}

/// A request to cancel is taken once; later ones are put aside. One that confirms more than
/// there is, is refused.
pub proof fn cancellation_is_requested_once(
    progress: log_producer::Progress,
    confirmed: u64,
    total: Option<u64>,
    command: ProjectLogCommand,
    engine: ProjectLogEngine,
)
    requires
        is_open(progress),
    ensures
        ({
            let told = verdict(
                progress,
                ProjectLogEvent::CancellationRequested { confirmed, total },
                command,
                engine,
            );
            match total {
                Some(total) if confirmed > total => told == refused(
                    progress,
                    EmitError::InvalidCancellationCount { confirmed, total },
                ),
                _ => if progress.cancellation_requested {
                    told == (
                        progress,
                        Ok::<EmitDisposition, EmitError>(EmitDisposition::DuplicateSuppressed),
                    )
                } else {
                    told == taken(log_producer::Progress { cancellation_requested: true, ..progress })
                },
            }
        }),
{
}

/// A phase starts if it never did, and ends if it has started and not ended; the other
/// phases stay where they are.
pub proof fn phases_start_and_end_in_turn(
    progress: log_producer::Progress,
    event: ProjectLogEvent,
    phase: ProjectLogPhase,
    other: ProjectLogPhase,
    command: ProjectLogCommand,
    engine: ProjectLogEngine,
)
    requires
        is_open(progress),
        (event matches ProjectLogEvent::PhaseStarted { phase: named, .. } && named == phase) || (event
            matches ProjectLogEvent::PhaseCompleted { phase: named, .. } && named == phase) || (event
            matches ProjectLogEvent::PhaseStopped { phase: named, .. } && named == phase),
        forall|id: DiagnosticOccurrenceId| #[trigger]
            log_event_laws::carries(event, id) ==> is_logged(progress, id),
    ensures
        ({
            let (after, answer) = verdict(progress, event, command, engine);
            let begins = event is PhaseStarted && progress.phase(phase) is None;
            let ends = !(event is PhaseStarted) && progress.phase(phase) == Some(PhaseState::Started);
            &&& answer == Ok::<EmitDisposition, EmitError>(EmitDisposition::Accepted) <==> begins || ends
            &&& !(begins || ends) ==> (after, answer) == refused(
                progress,
                EmitError::InvalidPhaseTransition(phase),
            )
            &&& begins ==> after.phase(phase) == Some(PhaseState::Started)
            &&& ends && event is PhaseCompleted ==> after.phase(phase) == Some(PhaseState::Completed)
            &&& ends && event is PhaseStopped ==> after.phase(phase) == Some(PhaseState::Stopped)
            &&& other != phase ==> after.phase(other) == progress.phase(other)
            &&& after == log_producer::Progress { phases: after.phases, ..progress }
        }),
{
    log_event_laws::phases_have_one_place_each(phase, other);
    if let Some(id) = event.named() {
        log_event_laws::events_refer_to_what_they_carry(event, id);
    }
}

/// A phase that is in the log is found there, and one that is not is not.
pub proof fn phases_are_kept_apart(
    progress: log_producer::Progress,
    phase: ProjectLogPhase,
    other: ProjectLogPhase,
    state: PhaseState,
)
    ensures
        progress.with_phase(phase, state).phase(phase) == Some(state),
        other != phase ==> progress.with_phase(phase, state).phase(other) == progress.phase(other),
        log_producer::Progress::initial().phase(phase) is None,
{
    log_event_laws::phases_have_one_place_each(phase, other);
}

/// A plan is told once, and only a plan of the run's command.
pub proof fn plans_are_told_once(
    progress: log_producer::Progress,
    plan: ResolvedRunPlan,
    command: ProjectLogCommand,
    engine: ProjectLogEngine,
)
    requires
        is_open(progress),
    ensures
        ({
            let told = verdict(progress, ProjectLogEvent::RunPlanResolved { plan }, command, engine);
            let own = match plan {
                ResolvedRunPlan::Init { .. } => command is Init,
                ResolvedRunPlan::Extract { .. } => command is Extract,
                ResolvedRunPlan::Translate { .. } => command is Translate,
            };
            if progress.run_plan_resolved {
                told == refused(progress, EmitError::DuplicateRunPlan)
            } else if own {
                told == taken(log_producer::Progress { run_plan_resolved: true, ..progress })
            } else {
                told == refused(progress, EmitError::RunPlanCommandMismatch)
            }
        }),
{
}

/// The end of a plan is told once, after the plan, and only if what is said of the plan and
/// of its transaction agree.
pub proof fn plans_end_once(
    progress: log_producer::Progress,
    event: ProjectLogEvent,
    command: ProjectLogCommand,
    engine: ProjectLogEngine,
)
    requires
        is_open(progress),
        event is RunPlanFinalized,
        forall|id: DiagnosticOccurrenceId| #[trigger]
            log_event_laws::carries(event, id) ==> is_logged_about(
                progress,
                id,
                DiagnosticScope::RunPlan,
            ),
    ensures
        ({
            let told = verdict(progress, event, command, engine);
            let agree = match event->RunPlanFinalized_result {
                RunPlanFinalization::Saved { transaction, .. } => transaction
                    is Committed,
                RunPlanFinalization::NotSaved { transaction, .. } => transaction
                    is NotStarted || transaction is RolledBack,
                RunPlanFinalization::SavedFinalizationFailed { transaction, .. } => transaction
                    is Committed,
                RunPlanFinalization::OutcomeUnknown { transaction, .. } => transaction
                    is OutcomeUnknown,
            };
            if !progress.run_plan_resolved || progress.run_plan_finalized {
                told == refused(progress, EmitError::InvalidRunPlanTransition)
            } else if agree {
                told == taken(log_producer::Progress { run_plan_finalized: true, ..progress })
            } else {
                told == refused(progress, EmitError::InvalidRunPlanTransaction)
            }
        }),
{
    if let Some(id) = event.named() {
        log_event_laws::events_refer_to_what_they_carry(event, id);
    }
}

/// A task starts if it never did and names the same total as the others.
pub proof fn tasks_start_once(
    progress: log_producer::Progress,
    task: TaskPosition,
    command: ProjectLogCommand,
    engine: ProjectLogEngine,
)
    requires
        is_open(progress),
        progress.coherent(),
    ensures
        ({
            let told = verdict(progress, ProjectLogEvent::TaskStarted { task }, command, engine);
            if progress.task_total is Some && progress.task_total != Some(task.count()) {
                told == refused(progress, EmitError::InconsistentTaskTotal)
            } else if progress.started.contains(task.number()) {
                told == refused(progress, EmitError::DuplicateTask(task.number()))
            } else {
                told == taken(
                    log_producer::Progress {
                        started: progress.started.insert(task.number()),
                        task_total: Some(task.count()),
                        ..progress
                    },
                )
            }
        }),
{
    if progress.started.contains(task.number()) {
        assert(progress.task_total is Some) by {
            if progress.task_total is None {
                assert(Set::<u64>::empty().contains(task.number()));
            }
        }
    }
}

/// A task ends if it has started and not ended, and names the same total as the others. It
/// is noted as what it ended as.
pub proof fn tasks_end_once(
    progress: log_producer::Progress,
    event: ProjectLogEvent,
    command: ProjectLogCommand,
    engine: ProjectLogEngine,
)
    requires
        is_open(progress),
        event is TaskFinished,
        forall|id: DiagnosticOccurrenceId| #[trigger]
            log_event_laws::carries(event, id) ==> is_logged_about(
                progress,
                id,
                DiagnosticScope::TranslationTask,
            ),
    ensures
        ({
            let told = verdict(progress, event, command, engine);
            let task = event->TaskFinished_task;
            let kind = match event->TaskFinished_outcome {
                TaskFinishedOutcome::Complete => TaskCounterKind::Complete,
                TaskFinishedOutcome::Partial { .. } => TaskCounterKind::Partial,
                TaskFinishedOutcome::Unavailable { .. } => TaskCounterKind::Unavailable,
                TaskFinishedOutcome::Failed { .. } => TaskCounterKind::Failed,
                TaskFinishedOutcome::NotCommittedAfterEarlierFailure { .. } => TaskCounterKind::Failed,
                TaskFinishedOutcome::Cancelled => TaskCounterKind::Cancelled,
            };
            if progress.task_total != Some(task.count()) {
                told == refused(progress, EmitError::InconsistentTaskTotal)
            } else if progress.started.contains(task.number()) && !progress.outcomes.dom().contains(
                task.number(),
            ) {
                told == taken(
                    log_producer::Progress {
                        outcomes: progress.outcomes.insert(task.number(), kind),
                        ..progress
                    },
                )
            } else {
                told == refused(progress, EmitError::InvalidTaskTransition(task.number()))
            }
        }),
{
    if let Some(id) = event.named() {
        log_event_laws::events_refer_to_what_they_carry(event, id);
    }
}

/// The tasks that ended as `kind`.
pub open spec fn ended_as(progress: log_producer::Progress, kind: TaskCounterKind) -> Set<u64> {
    Set::new(
        |ordinal: u64| progress.outcomes.dom().contains(ordinal) && progress.outcomes[ordinal] == kind,
    )
}

/// Whether the counters of a translation are those of the log.
pub open spec fn counts_as_logged(
    progress: log_producer::Progress,
    counters: TranslationTaskCounters,
) -> bool {
    &&& counters.started == progress.started.len()
    &&& counters.complete == ended_as(progress, TaskCounterKind::Complete).len()
    &&& counters.partial == ended_as(progress, TaskCounterKind::Partial).len()
    &&& counters.unavailable == ended_as(progress, TaskCounterKind::Unavailable).len()
    &&& counters.failed == ended_as(progress, TaskCounterKind::Failed).len()
    &&& counters.cancelled == ended_as(progress, TaskCounterKind::Cancelled).len()
    &&& progress.task_total matches Some(total) ==> counters.planned == total
}

/// Whether a summary, where the translation has one, belongs to the engine.
pub open spec fn is_told_of(result: TranslationFinished, engine: ProjectLogEngine) -> bool {
    match result {
        TranslationFinished::NotStarted => true,
        TranslationFinished::NoWork { summary, .. } => log_event_laws::is_summary_of(summary, engine),
        TranslationFinished::Complete { summary, .. } => log_event_laws::is_summary_of(
            summary,
            engine,
        ),
        TranslationFinished::Incomplete { summary, .. } => log_event_laws::is_summary_of(
            summary,
            engine,
        ),
        TranslationFinished::Failed { summary: Some(summary), .. } => log_event_laws::is_summary_of(
            summary,
            engine,
        ),
        TranslationFinished::Cancelled { summary: Some(summary), .. } => log_event_laws::is_summary_of(
            summary,
            engine,
        ),
        _ => true,
    }
}

/// Whether the counters of a translation, where it has any, are those of the log; one that
/// never started must have started no task, and one without work must have planned none.
pub open spec fn is_told_as_logged(
    progress: log_producer::Progress,
    result: TranslationFinished,
) -> bool {
    match result {
        TranslationFinished::NotStarted => progress.started.len() == 0,
        TranslationFinished::NoWork { tasks, .. } => counts_as_logged(progress, tasks) && tasks.planned
            == 0,
        TranslationFinished::Complete { tasks, .. } => counts_as_logged(progress, tasks),
        TranslationFinished::Incomplete { tasks, .. } => counts_as_logged(progress, tasks),
        TranslationFinished::Failed { tasks, .. } => counts_as_logged(progress, tasks),
        TranslationFinished::Cancelled { tasks, .. } => counts_as_logged(progress, tasks),
    }
}

/// Whether the result of a translation agrees with the diagnostics on its plan: with one, it
/// did not simply never start, and a failure to plan leaves every task unstarted.
pub open spec fn is_told_of_the_plan(
    progress: log_producer::Progress,
    result: TranslationFinished,
) -> bool {
    &&& result is NotStarted ==> forall|key: u64| #[trigger]
        progress.occurrences.dom().contains(key) ==> progress.occurrences[key].scope
            != DiagnosticScope::RunPlan
    &&& result matches TranslationFinished::Failed { tasks, diagnostic, .. } ==> (
    progress.occurrences[diagnostic.number()].scope == DiagnosticScope::RunPlan ==> tasks.started == 0
        && tasks.not_started == tasks.planned)
}

/// Tasks are counted one by one.
pub proof fn lemma_counts(progress: log_producer::Progress, kind: TaskCounterKind)
    ensures
        progress.ended(kind) == ended_as(progress, kind).len(),
{
    ordered_map::lemma_count_is_of_a_set(progress.outcomes, kind, ended_as(progress, kind));
}

/// The end of a translation is told once, and only if it agrees with the log: its tasks with
/// those that were logged, its summary with the engine, its plan with what was said of the
/// plan, and every started task has ended. What does not agree is named.
pub proof fn translations_end_once(
    progress: log_producer::Progress,
    result: TranslationFinished,
    command: ProjectLogCommand,
    engine: ProjectLogEngine,
)
    requires
        is_open(progress),
        result matches TranslationFinished::Failed { diagnostic, .. } ==> is_logged(
            progress,
            diagnostic,
        ),
    ensures
        ({
            let told = verdict(
                progress,
                ProjectLogEvent::TranslationFinished { result },
                command,
                engine,
            );
            if progress.translation_finished {
                told == refused(progress, EmitError::DuplicateTranslationFinished)
            } else if !is_told_as_logged(progress, result) {
                told == refused(progress, EmitError::TaskSummaryMismatch)
            } else if !is_told_of(result, engine) {
                told == refused(progress, EmitError::EngineSummaryMismatch)
            } else if !is_told_of_the_plan(progress, result) {
                told == refused(
                    progress,
                    if result is NotStarted {
                        EmitError::DiagnosticRequiresFailedTranslation
                    } else {
                        EmitError::PlanningFailureStartedTasks
                    },
                )
            } else if exists|ordinal: u64| #[trigger]
                progress.started.contains(ordinal) && !progress.outcomes.dom().contains(ordinal) {
                told == refused(progress, EmitError::UnfinishedTasks)
            } else {
                told == taken(log_producer::Progress { translation_finished: true, ..progress })
            }
        }),
{
    let event = ProjectLogEvent::TranslationFinished { result };
    if let Some(id) = event.named() {
        log_event_laws::events_refer_to_what_they_carry(event, id);
    }
    log_event_laws::translations_tell_their_tasks(result, engine);
    lemma_counts(progress, TaskCounterKind::Complete);
    lemma_counts(progress, TaskCounterKind::Partial);
    lemma_counts(progress, TaskCounterKind::Unavailable);
    lemma_counts(progress, TaskCounterKind::Failed);
    lemma_counts(progress, TaskCounterKind::Cancelled);
}

/// A publication starts once. Once it has, it ends once: a published result is accepted
/// exactly when its summary is generic where the engine is, and every other result when the
/// log holds its diagnostic on the publication.
pub proof fn publications_start_and_end_once(
    progress: log_producer::Progress,
    event: ProjectLogEvent,
    command: ProjectLogCommand,
    engine: ProjectLogEngine,
)
    requires
        is_open(progress),
        event is PublicationStarted || event is PublicationFinished,
    ensures
        ({
            let told = verdict(progress, event, command, engine);
            let due = progress.publication_started && !progress.publication_finished;
            let ended = taken(log_producer::Progress { publication_finished: true, ..progress });
            match event {
                ProjectLogEvent::PublicationFinished {
                    result: PublicationFinished::Published { summary },
                } => if !due {
                    told == refused(progress, EmitError::InvalidPublicationTransition)
                } else if (summary is Generic) == (engine is Generic) {
                    told == ended
                } else {
                    told == refused(progress, EmitError::EngineSummaryMismatch)
                },
                ProjectLogEvent::PublicationFinished {
                    result: PublicationFinished::NotPublished { diagnostic },
                } => is_logged_about(progress, diagnostic, DiagnosticScope::Publication) ==> told == (
                if due {
                    ended
                } else {
                    refused(progress, EmitError::InvalidPublicationTransition)
                }),
                ProjectLogEvent::PublicationFinished {
                    result: PublicationFinished::RecoveryRequired { diagnostic },
                } => is_logged_about(progress, diagnostic, DiagnosticScope::Publication) ==> told == (
                if due {
                    ended
                } else {
                    refused(progress, EmitError::InvalidPublicationTransition)
                }),
                ProjectLogEvent::PublicationFinished {
                    result: PublicationFinished::OutcomeUnknown { diagnostic },
                } => is_logged_about(progress, diagnostic, DiagnosticScope::Publication) ==> told == (
                if due {
                    ended
                } else {
                    refused(progress, EmitError::InvalidPublicationTransition)
                }),
                _ => told == (if progress.publication_started {
                    refused(progress, EmitError::DuplicatePublication)
                } else {
                    taken(log_producer::Progress { publication_started: true, ..progress })
                }),
            }
        }),
{
}

/// A summary of retries is taken exactly when its parts make up the whole, and what was
/// printed always; neither changes what is known of the run.
pub proof fn retries_add_up(
    progress: log_producer::Progress,
    event: ProjectLogEvent,
    command: ProjectLogCommand,
    engine: ProjectLogEngine,
)
    requires
        is_open(progress),
    ensures
        event is LuaPrint ==> verdict(progress, event, command, engine) == taken(progress),
        event matches ProjectLogEvent::RetrySummary { attempted, recovered, exhausted } ==> verdict(
            progress,
            event,
            command,
            engine,
        ) == (if attempted == recovered + exhausted {
            taken(progress)
        } else {
            refused(progress, EmitError::InvalidRetrySummary { attempted, recovered, exhausted })
        }),
{
}

/// A diagnostic that was noted is found as it was noted, until it is forgotten; the others
/// stay as they are.
pub proof fn diagnostics_are_kept_apart(
    progress: log_producer::Progress,
    id: DiagnosticOccurrenceId,
    other: DiagnosticOccurrenceId,
    state: OccurrenceState,
    scope: DiagnosticScope,
)
    ensures
        ({
            let noted = progress.with_occurrence(id, state, scope);
            &&& noted.emitted(id) <==> state is Emitted
            &&& noted.prepared(id) <==> state is PreparedTerminal
            &&& noted.scope_of(id) == Some(scope)
            &&& other != id ==> noted.registration(other) == progress.registration(other)
            &&& progress.without_occurrence(id).registration(id) is None
            &&& other != id ==> progress.without_occurrence(id).registration(other)
                == progress.registration(other)
            &&& progress.emitted(id) <==> is_logged(progress, id)
            &&& noted == log_producer::Progress { occurrences: noted.occurrences, ..progress }
        }),
{
    if id.number() == other.number() {
        id.lemma_number_identifies(other);
    }
}

/// Whether the run has something open that must end before it can.
pub open spec fn has_open_end(progress: log_producer::Progress, command: ProjectLogCommand) -> bool {
    ||| exists|key: u64| #[trigger]
        progress.phases.dom().contains(key) && progress.phases[key] == PhaseState::Started
    ||| exists|ordinal: u64| #[trigger]
        progress.started.contains(ordinal) && !progress.outcomes.dom().contains(ordinal)
    ||| progress.run_plan_resolved && !progress.run_plan_finalized
    ||| command is Translate && !progress.translation_finished
    ||| progress.publication_started && !progress.publication_finished
}

/// Whether every closing diagnostic was prepared and none is given twice.
pub open spec fn closes_properly(
    progress: log_producer::Progress,
    terminal: Seq<PreparedTerminalDiagnostic>,
) -> bool {
    &&& forall|i: int|
        0 <= i < terminal.len() ==> {
            let number = (#[trigger] terminal[i]).held().identity().number();
            &&& progress.occurrences.dom().contains(number)
            &&& progress.occurrences[number].state == OccurrenceState::PreparedTerminal
        }
    &&& forall|i: int, j: int|
        0 <= i < j < terminal.len() ==> (#[trigger] terminal[i]).held().identity() != (
        #[trigger] terminal[j]).held().identity()
}

/// Whether the diagnostic that the result of a run names is in the log or among those that
/// close it.
pub open spec fn names_a_known_one(
    progress: log_producer::Progress,
    terminal: Seq<PreparedTerminalDiagnostic>,
    named: Option<DiagnosticOccurrenceId>,
) -> bool {
    named matches Some(id) ==> is_logged(progress, id) || exists|i: int|
        0 <= i < terminal.len() && (#[trigger] terminal[i]).held().identity() == id
}

proof fn lemma_numbers_repeated(terminal: Seq<PreparedTerminalDiagnostic>)
    ensures
        ({
            let numbers = crate::log_terminal::numbers_of(
                crate::log_terminal::occurrences_of(terminal),
            );
            (exists|number: u64| #[trigger] crate::log_terminal::repeated(numbers, number)) <==> exists|
                i: int,
                j: int,
            |
                0 <= i < j < terminal.len() && (#[trigger] terminal[i]).held().identity() == (
                #[trigger] terminal[j]).held().identity()
        }),
{
    let numbers = crate::log_terminal::numbers_of(crate::log_terminal::occurrences_of(terminal));
    if exists|number: u64| #[trigger] crate::log_terminal::repeated(numbers, number) {
        if numbers.no_duplicates() {
            numbers.lemma_multiset_has_no_duplicates();
            let number = choose|number: u64| #[trigger]
                crate::log_terminal::repeated(numbers, number);
            assert(numbers.to_multiset().contains(number));
            assert(false);
        }
        let (i, j) = choose|i: int, j: int|
            0 <= i < numbers.len() && 0 <= j < numbers.len() && i != j && numbers[i] == numbers[j];
        let (low, high) = if i < j {
            (i, j)
        } else {
            (j, i)
        };
        assert(terminal[low].held().identity().number() == numbers[low]);
        assert(terminal[high].held().identity().number() == numbers[high]);
        terminal[low].held().identity().lemma_number_identifies(terminal[high].held().identity());
    }
    if exists|i: int, j: int|
        0 <= i < j < terminal.len() && (#[trigger] terminal[i]).held().identity() == (
        #[trigger] terminal[j]).held().identity() {
        let (i, j) = choose|i: int, j: int|
            0 <= i < j < terminal.len() && (#[trigger] terminal[i]).held().identity() == (
            #[trigger] terminal[j]).held().identity();
        let number = numbers[i];
        assert(numbers[j] == number);
        let left = numbers.subrange(0, j);
        let right = numbers.subrange(j, numbers.len() as int);
        assert(numbers =~= left + right);
        vstd::seq_lib::lemma_multiset_commutative(left, right);
        left.to_multiset_ensures();
        right.to_multiset_ensures();
        assert(left[i] == number && right[0] == number);
        assert(left.contains(number) && right.contains(number));
        assert(numbers.to_multiset().count(number) == left.to_multiset().count(number)
            + right.to_multiset().count(number));
        assert(crate::log_terminal::repeated(numbers, number));
    }
}

/// A run ends exactly when it has not ended, nothing in it is open unless it is forced, the
/// closing diagnostics are in order, the diagnostic that it names is known, and the writer
/// is there.
pub proof fn runs_end_when_all_is_in_order(
    progress: log_producer::Progress,
    terminal: Seq<PreparedTerminalDiagnostic>,
    named: Option<DiagnosticOccurrenceId>,
    command: ProjectLogCommand,
    force: bool,
)
    ensures
        ({
            let error = log_producer::finish_error(progress, terminal, named, command, force);
            let open = has_open_end(progress, command) && !force;
            let fit = closes_properly(progress, terminal);
            let known = names_a_known_one(progress, terminal, named);
            &&& error is None <==> !progress.finalized && !open && fit && known && progress.connected
            &&& error == Some(FinishError::AlreadyFinished) <==> progress.finalized
            &&& error == Some(FinishError::ChannelClosed) <==> !progress.finalized && !open && fit
                && known && !progress.connected
            &&& (error matches Some(error) && error is UnknownDiagnostic) <==> !progress.finalized
                && !open && fit && !known
            &&& (error matches Some(error) && error is InvalidTerminalDiagnostic)
                <==> !progress.finalized && !open && !fit
            &&& (error matches Some(error) && (error is ActivePhase || error is UnfinishedTasks
                || error is UnfinalizedRunPlan || error is MissingTranslationFinished
                || error is MissingPublicationFinished)) <==> !progress.finalized && open
            &&& error matches Some(FinishError::UnknownDiagnostic(id)) ==> named == Some(id)
        }),
{
    let stranger = log_producer::unprepared(progress, terminal);
    let count = terminal.len() as int;
    search::lemma_first_meaning(stranger, 0, count);
    lemma_numbers_repeated(terminal);
    let all_prepared = forall|i: int|
        0 <= i < terminal.len() ==> {
            let number = (#[trigger] terminal[i]).held().identity().number();
            &&& progress.occurrences.dom().contains(number)
            &&& progress.occurrences[number].state == OccurrenceState::PreparedTerminal
        };
    if search::first_such(stranger, 0, count) is None {
        assert forall|i: int| 0 <= i < terminal.len() implies {
            let number = (#[trigger] terminal[i]).held().identity().number();
            &&& progress.occurrences.dom().contains(number)
            &&& progress.occurrences[number].state == OccurrenceState::PreparedTerminal
        } by {
            assert(!stranger(i));
        }
    } else {
        let i = search::first_such(stranger, 0, count)->0;
        assert(stranger(i));
        assert(!all_prepared) by {
            assert(!progress.prepared(terminal[i].held().identity()));
        }
    }
    if let Some(id) = named {
        if all_prepared && (exists|i: int|
            0 <= i < terminal.len() && (#[trigger] terminal[i]).held().identity() == id) {
            let i = choose|i: int|
                0 <= i < terminal.len() && (#[trigger] terminal[i]).held().identity() == id;
            assert(progress.prepared(terminal[i].held().identity()));
            assert(log_producer::closes_with(terminal, id));
        }
    }
}

/// What keeps a run from ending is named: what is named is really open, and each thing that
/// is open is named where nothing before it is.
pub proof fn open_ends_are_named(progress: log_producer::Progress, command: ProjectLogCommand)
    ensures
        ({
            let gap = log_producer::finish_gap(progress, command);
            let phase = exists|key: u64| #[trigger]
                progress.phases.dom().contains(key) && progress.phases[key] == PhaseState::Started;
            let tasks = exists|ordinal: u64| #[trigger]
                progress.started.contains(ordinal) && !progress.outcomes.dom().contains(ordinal);
            let plan = progress.run_plan_resolved && !progress.run_plan_finalized;
            let translation = command is Translate && !progress.translation_finished;
            let publication = progress.publication_started && !progress.publication_finished;
            &&& gap == Some(FinishError::ActivePhase) <==> phase
            &&& gap == Some(FinishError::UnfinishedTasks) <==> tasks && !phase
            &&& gap == Some(FinishError::UnfinalizedRunPlan) <==> plan && !phase && !tasks
            &&& gap == Some(FinishError::MissingTranslationFinished) <==> translation && !phase && !tasks
                && !plan
            &&& gap == Some(FinishError::MissingPublicationFinished) <==> publication && !phase && !tasks
                && !plan && !translation
            &&& gap is None <==> !has_open_end(progress, command)
        }),
{
}

/// The closing diagnostic that is refused is one of those given: one that was not prepared,
/// or one that is given twice.
pub proof fn refused_closing_diagnostics_are_named(
    progress: log_producer::Progress,
    terminal: Seq<PreparedTerminalDiagnostic>,
    named: Option<DiagnosticOccurrenceId>,
    command: ProjectLogCommand,
    force: bool,
    id: DiagnosticOccurrenceId,
    i: int,
)
    requires
        log_producer::finish_error(progress, terminal, named, command, force) == Some(
            FinishError::InvalidTerminalDiagnostic(id),
        ),
        0 <= i < terminal.len(),
        !(progress.occurrences.dom().contains(terminal[i].held().identity().number())
            && progress.occurrences[terminal[i].held().identity().number()].state
            == OccurrenceState::PreparedTerminal),
    ensures
        exists|k: int|
            {
                &&& 0 <= k <= i
                &&& (#[trigger] terminal[k]).held().identity() == id
                &&& !(progress.occurrences.dom().contains(id.number())
                    && progress.occurrences[id.number()].state == OccurrenceState::PreparedTerminal)
            },
{
    let stranger = log_producer::unprepared(progress, terminal);
    search::lemma_first_meaning(stranger, 0, terminal.len() as int);
    assert(stranger(i));
    let k = search::first_such(stranger, 0, terminal.len() as int)->0;
    assert(stranger(k));
    assert(terminal[k].held().identity() == id);
}

/// The end of a run closes the log and lets go of the writer; a refused end leaves
/// everything as it was.
pub proof fn ends_close_the_log(progress: log_producer::Progress, error: Option<FinishError>)
    ensures
        ({
            let after = log_producer::after_finish(progress, error);
            &&& error is None || error == Some(FinishError::ChannelClosed) ==> after
                == log_producer::Progress { finalized: true, connected: false, ..progress }
            &&& error is Some && error != Some(FinishError::ChannelClosed) ==> after == progress
        }),
{
}

} // verus!
