//! The rules that events of one run must follow.

use vstd::prelude::*;
use crate::log_event::{
    DiagnosticOccurrence, DiagnosticOccurrenceId, DiagnosticScope, ProjectLogCode,
    ProjectLogCommand, ProjectLogContext, ProjectLogEngine, ProjectLogEvent, ProjectLogPhase,
    PublicationFinished, RunFinished, TaskCounterKind, TaskPosition, TranslationFinished,
    TranslationTaskCounters,
};
use crate::log_terminal;
use crate::log_terminal::{first_repetition, in_order_of_number, PreparedTerminalDiagnostic};
use crate::ordered_map;
use crate::ordered_map::OrderedMap;
use crate::search;

verus! {

/// Whether a diagnostic is already in the log or waits for the end of the run.
#[derive(Clone, Copy, Debug, PartialEq, Eq, Structural)]
pub enum OccurrenceState {
    Emitted,
    PreparedTerminal,
}

/// What is known of a numbered diagnostic.
#[derive(Clone, Copy, Debug, PartialEq, Eq, Structural)]
pub struct OccurrenceRegistration {
    pub state: OccurrenceState,
    pub scope: DiagnosticScope,
}

/// Where a phase stands.
#[derive(Clone, Copy, Debug, PartialEq, Eq, Structural)]
pub enum PhaseState {
    Started,
    Completed,
    Stopped,
}

/// What became of an event.
#[derive(Clone, Copy, Debug, PartialEq, Eq, Structural)]
pub enum EmitDisposition {
    Accepted,
    BestEffortDropped,
    DuplicateSuppressed,
}

/// Why an event was refused.
#[derive(Clone, Copy, Debug, PartialEq, Eq, Structural)]
pub enum EmitError {
    Closed,
    RuntimeManagedEvent { event: ProjectLogCode },
    UnknownDiagnostic(DiagnosticOccurrenceId),
    InvalidDiagnosticScope(DiagnosticOccurrenceId),
    InvalidPhaseTransition(ProjectLogPhase),
    DuplicateRunPlan,
    InvalidRunPlanTransition,
    RunPlanCommandMismatch,
    InvalidRunPlanTransaction,
    DuplicateTask(u64),
    InvalidTaskTransition(u64),
    InconsistentTaskTotal,
    DuplicateTranslationFinished,
    DuplicatePublication,
    InvalidPublicationTransition,
    UnfinishedTasks,
    TaskSummaryMismatch,
    TaskCountDoesNotFit,
    EngineSummaryMismatch,
    InvalidRetrySummary { attempted: u64, recovered: u64, exhausted: u64 },
    InvalidCancellationCount { confirmed: u64, total: u64 },
    DiagnosticRequiresFailedTranslation,
    PlanningFailureStartedTasks,
    OccurrenceIdExhausted,
    SequenceExhausted,
}

/// Why a run could not be finished.
#[derive(Clone, Copy, Debug, PartialEq, Eq, Structural)]
pub enum FinishError {
    AlreadyFinished,
    ActivePhase,
    UnfinishedTasks,
    UnfinalizedRunPlan,
    MissingTranslationFinished,
    MissingPublicationFinished,
    UnknownDiagnostic(DiagnosticOccurrenceId),
    InvalidTerminalDiagnostic(DiagnosticOccurrenceId),
    ChannelClosed,
}

/// What the producers of one run have said so far.
pub ghost struct Progress {
    pub connected: bool,
    pub finalized: bool,
    pub terminal_preparing: bool,
    pub cancellation_requested: bool,
    pub phases: Map<u64, PhaseState>,
    pub run_plan_resolved: bool,
    pub run_plan_finalized: bool,
    pub started: Set<u64>,
    pub outcomes: Map<u64, TaskCounterKind>,
    pub task_total: Option<u64>,
    pub translation_finished: bool,
    pub publication_started: bool,
    pub publication_finished: bool,
    pub occurrences: Map<u64, OccurrenceRegistration>,
}

impl Progress {
    pub open spec fn initial() -> Self {
        Progress {
            connected: true,
            finalized: false,
            terminal_preparing: false,
            cancellation_requested: false,
            phases: Map::empty(),
            run_plan_resolved: false,
            run_plan_finalized: false,
            started: Set::empty(),
            outcomes: Map::empty(),
            task_total: None,
            translation_finished: false,
            publication_started: false,
            publication_finished: false,
            occurrences: Map::empty(),
        }
    }

    /// Whether events are no longer taken.
    pub open spec fn closed(self) -> bool {
        self.finalized || self.terminal_preparing
    }

    pub open spec fn phase(self, phase: ProjectLogPhase) -> Option<PhaseState> {
        let key = phase.position() as u64;
        if self.phases.dom().contains(key) {
            Some(self.phases[key])
        } else {
            None
        }
    }

    pub open spec fn with_phase(self, phase: ProjectLogPhase, state: PhaseState) -> Self {
        Progress { phases: self.phases.insert(phase.position() as u64, state), ..self }
    }

    pub open spec fn registration(self, id: DiagnosticOccurrenceId) -> Option<OccurrenceRegistration> {
        if self.occurrences.dom().contains(id.number()) {
            Some(self.occurrences[id.number()])
        } else {
            None
        }
    }

    /// Whether `id` is in the log.
    pub open spec fn emitted(self, id: DiagnosticOccurrenceId) -> bool {
        self.registration(id) is Some && self.registration(id)->0.state == OccurrenceState::Emitted
    }

    /// Whether `id` waits for the end of the run.
    pub open spec fn prepared(self, id: DiagnosticOccurrenceId) -> bool {
        self.registration(id) is Some && self.registration(id)->0.state
            == OccurrenceState::PreparedTerminal
    }

    pub open spec fn with_occurrence(
        self,
        id: DiagnosticOccurrenceId,
        state: OccurrenceState,
        scope: DiagnosticScope,
    ) -> Self {
        Progress {
            occurrences: self.occurrences.insert(id.number(), OccurrenceRegistration { state, scope }),
            ..self
        }
    }

    pub open spec fn without_occurrence(self, id: DiagnosticOccurrenceId) -> Self {
        Progress { occurrences: self.occurrences.remove(id.number()), ..self }
    }

    pub open spec fn scope_of(self, id: DiagnosticOccurrenceId) -> Option<DiagnosticScope> {
        match self.registration(id) {
            Some(registration) => Some(registration.scope),
            None => None,
        }
    }

    /// Whether some diagnostic concerns the run plan.
    pub open spec fn has_plan_diagnostic(self) -> bool {
        exists|key: u64| #[trigger]
            self.occurrences.dom().contains(key) && self.occurrences[key].scope == DiagnosticScope::RunPlan
    }

    pub open spec fn ended(self, kind: TaskCounterKind) -> nat {
        ordered_map::count_of(self.outcomes, kind)
    }

    /// Whether every started task has an outcome.
    pub open spec fn all_ended(self) -> bool {
        forall|ordinal: u64| #[trigger]
            self.started.contains(ordinal) ==> self.outcomes.dom().contains(ordinal)
    }

    /// Whether the counters say of the started tasks what the log says.
    pub open spec fn agrees(self, counters: TranslationTaskCounters) -> bool {
        &&& counters.started == self.started.len()
        &&& counters.complete == self.ended(TaskCounterKind::Complete)
        &&& counters.partial == self.ended(TaskCounterKind::Partial)
        &&& counters.unavailable == self.ended(TaskCounterKind::Unavailable)
        &&& counters.failed == self.ended(TaskCounterKind::Failed)
        &&& counters.cancelled == self.ended(TaskCounterKind::Cancelled)
    }

    /// What every reachable progress has in common.
    pub open spec fn coherent(self) -> bool {
        &&& self.started.finite()
        &&& self.outcomes.dom().finite()
        &&& self.outcomes.dom().subset_of(self.started)
        &&& self.task_total is None <==> self.started == Set::<u64>::empty()
        &&& forall|ordinal: u64| #[trigger]
            self.started.contains(ordinal) ==> 1 <= ordinal && (self.task_total is Some ==> ordinal
                <= self.task_total->0)
        &&& self.run_plan_finalized ==> self.run_plan_resolved
        &&& self.publication_finished ==> self.publication_started
    }
}

/// The scope that an event's diagnostic must have.
pub open spec fn demanded_scope(event: ProjectLogEvent) -> Option<DiagnosticScope> {
    match event {
        ProjectLogEvent::RunPlanFinalized { .. } => Some(DiagnosticScope::RunPlan),
        ProjectLogEvent::TaskFinished { .. } => Some(DiagnosticScope::TranslationTask),
        ProjectLogEvent::PublicationFinished { .. } => Some(DiagnosticScope::Publication),
        _ => None,
    }
}

/// Why an event may not refer to its diagnostic.
pub open spec fn reference_error(progress: Progress, event: ProjectLogEvent) -> Option<EmitError> {
    match event.named() {
        None => None,
        Some(id) => if !progress.emitted(id) {
            Some(EmitError::UnknownDiagnostic(id))
        } else if demanded_scope(event) is Some && progress.scope_of(id) != demanded_scope(event) {
            Some(EmitError::InvalidDiagnosticScope(id))
        } else {
            None
        },
    }
}

/// Why a translation may not end with `result` now.
pub open spec fn translation_error(
    progress: Progress,
    result: TranslationFinished,
    engine: ProjectLogEngine,
) -> Option<EmitError> {
    let planned_differs = |counters: TranslationTaskCounters|
        (progress.task_total is Some && progress.task_total->0 != counters.planned) || (result is NoWork
            && counters.planned != 0);
    if progress.translation_finished {
        Some(EmitError::DuplicateTranslationFinished)
    } else if result.counters() is Some && (!progress.agrees(result.counters()->0) || planned_differs(
        result.counters()->0,
    )) {
        Some(EmitError::TaskSummaryMismatch)
    } else if result.counters() is Some && !result.summary_fits(engine) {
        Some(EmitError::EngineSummaryMismatch)
    } else if result.counters() is None && progress.started.len() > 0 {
        Some(EmitError::TaskSummaryMismatch)
    } else if result is NotStarted && progress.has_plan_diagnostic() {
        Some(EmitError::DiagnosticRequiresFailedTranslation)
    } else if result is Failed && progress.scope_of(result.named()->0) == Some(DiagnosticScope::RunPlan)
        && (result.counters()->0.started != 0 || result.counters()->0.not_started
        != result.counters()->0.planned) {
        Some(EmitError::PlanningFailureStartedTasks)
    } else if !progress.all_ended() {
        Some(EmitError::UnfinishedTasks)
    } else {
        None
    }
}

/// What the start of a task does. All tasks name the same total, and none starts twice.
pub open spec fn task_started(progress: Progress, task: TaskPosition) -> (
    Progress,
    Result<(), EmitError>,
) {
    if progress.task_total is Some && progress.task_total->0 != task.count() {
        (progress, Err(EmitError::InconsistentTaskTotal))
    } else if progress.started.contains(task.number()) {
        (
            Progress { task_total: Some(task.count()), ..progress },
            Err(EmitError::DuplicateTask(task.number())),
        )
    } else {
        (
            Progress {
                task_total: Some(task.count()),
                started: progress.started.insert(task.number()),
                ..progress
            },
            Ok(()),
        )
    }
}

/// What the end of a task does. Only a started task ends, and only once.
pub open spec fn task_finished(
    progress: Progress,
    task: TaskPosition,
    kind: TaskCounterKind,
) -> (Progress, Result<(), EmitError>) {
    if progress.task_total != Some(task.count()) {
        (progress, Err(EmitError::InconsistentTaskTotal))
    } else if !progress.started.contains(task.number()) || progress.outcomes.dom().contains(
        task.number(),
    ) {
        (progress, Err(EmitError::InvalidTaskTransition(task.number())))
    } else {
        (
            Progress { outcomes: progress.outcomes.insert(task.number(), kind), ..progress },
            Ok(()),
        )
    }
}

/// The progress without what an event noted of a task. A task whose start is withdrawn is
/// forgotten altogether, and with the last task the total.
pub open spec fn withdrawn(progress: Progress, event: ProjectLogEvent) -> Progress {
    match event {
        ProjectLogEvent::TaskStarted { task } => {
            let started = progress.started.remove(task.number());
            Progress {
                started,
                outcomes: progress.outcomes.remove(task.number()),
                task_total: if started == Set::<u64>::empty() {
                    None
                } else {
                    progress.task_total
                },
                ..progress
            }
        },
        ProjectLogEvent::TaskFinished { task, .. } => Progress {
            outcomes: progress.outcomes.remove(task.number()),
            ..progress
        },
        _ => progress,
    }
}

pub open spec fn answer(result: Result<(), EmitError>) -> Result<EmitDisposition, EmitError> {
    match result {
        Ok(_) => Ok(EmitDisposition::Accepted),
        Err(error) => Err(error),
    }
}

/// What an event does to the progress, and how it is answered.
pub open spec fn admitted(
    progress: Progress,
    event: ProjectLogEvent,
    command: ProjectLogCommand,
    engine: ProjectLogEngine,
) -> (Progress, Result<EmitDisposition, EmitError>) {
    let accepted = Ok::<EmitDisposition, EmitError>(EmitDisposition::Accepted);
    if progress.closed() {
        (progress, Err(EmitError::Closed))
    } else if reference_error(progress, event) is Some {
        (progress, Err(reference_error(progress, event)->0))
    } else {
        match event {
            ProjectLogEvent::CancellationRequested { confirmed, total } => if total is Some
                && confirmed > total->0 {
                (progress, Err(EmitError::InvalidCancellationCount { confirmed, total: total->0 }))
            } else if progress.cancellation_requested {
                (progress, Ok(EmitDisposition::DuplicateSuppressed))
            } else {
                (Progress { cancellation_requested: true, ..progress }, accepted)
            },
            ProjectLogEvent::PhaseStarted { phase, .. } => if progress.phase(phase) is Some {
                (progress, Err(EmitError::InvalidPhaseTransition(phase)))
            } else {
                (progress.with_phase(phase, PhaseState::Started), accepted)
            },
            ProjectLogEvent::PhaseCompleted { phase, .. } => if progress.phase(phase) != Some(
                PhaseState::Started,
            ) {
                (progress, Err(EmitError::InvalidPhaseTransition(phase)))
            } else {
                (progress.with_phase(phase, PhaseState::Completed), accepted)
            },
            ProjectLogEvent::PhaseStopped { phase, .. } => if progress.phase(phase) != Some(
                PhaseState::Started,
            ) {
                (progress, Err(EmitError::InvalidPhaseTransition(phase)))
            } else {
                (progress.with_phase(phase, PhaseState::Stopped), accepted)
            },
            ProjectLogEvent::RunPlanResolved { plan } => if progress.run_plan_resolved {
                (progress, Err(EmitError::DuplicateRunPlan))
            } else if !plan.fits(command) {
                (progress, Err(EmitError::RunPlanCommandMismatch))
            } else {
                (Progress { run_plan_resolved: true, ..progress }, accepted)
            },
            ProjectLogEvent::RunPlanFinalized { result, .. } => if !progress.run_plan_resolved
                || progress.run_plan_finalized {
                (progress, Err(EmitError::InvalidRunPlanTransition))
            } else if !result.consistent() {
                (progress, Err(EmitError::InvalidRunPlanTransaction))
            } else {
                (Progress { run_plan_finalized: true, ..progress }, accepted)
            },
            ProjectLogEvent::TaskStarted { task } => {
                let noted = task_started(progress, task);
                (noted.0, answer(noted.1))
            },
            ProjectLogEvent::TaskFinished { task, outcome, .. } => {
                let noted = task_finished(progress, task, outcome.counter());
                (noted.0, answer(noted.1))
            },
            ProjectLogEvent::TranslationFinished { result } => match translation_error(
                progress,
                result,
                engine,
            ) {
                Some(error) => (progress, Err(error)),
                None => (Progress { translation_finished: true, ..progress }, accepted),
            },
            ProjectLogEvent::PublicationStarted { .. } => if progress.publication_started {
                (progress, Err(EmitError::DuplicatePublication))
            } else {
                (Progress { publication_started: true, ..progress }, accepted)
            },
            ProjectLogEvent::PublicationFinished { result } => if !progress.publication_started
                || progress.publication_finished {
                (progress, Err(EmitError::InvalidPublicationTransition))
            } else if result is Published && !result->summary.fits(engine) {
                (progress, Err(EmitError::EngineSummaryMismatch))
            } else {
                (Progress { publication_finished: true, ..progress }, accepted)
            },
            ProjectLogEvent::RetrySummary { attempted, recovered, exhausted } => if recovered
                + exhausted != attempted {
                (
                    progress,
                    Err(EmitError::InvalidRetrySummary { attempted, recovered, exhausted }),
                )
            } else {
                (progress, accepted)
            },
            ProjectLogEvent::LuaPrint { .. } => (progress, accepted),
            _ => (progress, Err(EmitError::RuntimeManagedEvent { event: event.kind() })),
        }
    }
}

/// What a run still lacks to end normally.
pub open spec fn finish_gap(progress: Progress, command: ProjectLogCommand) -> Option<FinishError> {
    if exists|key: u64| #[trigger]
        progress.phases.dom().contains(key) && progress.phases[key] == PhaseState::Started {
        Some(FinishError::ActivePhase)
    } else if !progress.all_ended() {
        Some(FinishError::UnfinishedTasks)
    } else if progress.run_plan_resolved && !progress.run_plan_finalized {
        Some(FinishError::UnfinalizedRunPlan)
    } else if command == ProjectLogCommand::Translate && !progress.translation_finished {
        Some(FinishError::MissingTranslationFinished)
    } else if progress.publication_started && !progress.publication_finished {
        Some(FinishError::MissingPublicationFinished)
    } else {
        None
    }
}

/// Whether the diagnostic at `i` may close the run.
pub open spec fn unprepared(
    progress: Progress,
    terminal: Seq<PreparedTerminalDiagnostic>,
) -> spec_fn(int) -> bool {
    |i: int| !progress.prepared(terminal[i].held().identity())
}

/// Whether one of the closing diagnostics has this number.
pub open spec fn closes_with(terminal: Seq<PreparedTerminalDiagnostic>, id: DiagnosticOccurrenceId) -> bool {
    exists|i: int| 0 <= i < terminal.len() && (#[trigger] terminal[i]).held().identity() == id
}

/// Why a run may not end with `named` as its diagnostic and `terminal` as its closing
/// diagnostics.
pub open spec fn finish_error(
    progress: Progress,
    terminal: Seq<PreparedTerminalDiagnostic>,
    named: Option<DiagnosticOccurrenceId>,
    command: ProjectLogCommand,
    force: bool,
) -> Option<FinishError> {
    let numbers = log_terminal::numbers_of(log_terminal::occurrences_of(terminal));
    let stranger = search::first_such(unprepared(progress, terminal), 0, terminal.len() as int);
    if progress.finalized {
        Some(FinishError::AlreadyFinished)
    } else if !force && finish_gap(progress, command) is Some {
        finish_gap(progress, command)
    } else if stranger is Some {
        Some(FinishError::InvalidTerminalDiagnostic(terminal[stranger->0].held().identity()))
    } else if exists|number: u64| #[trigger] log_terminal::repeated(numbers, number) {
        Some(
            FinishError::InvalidTerminalDiagnostic(
                choose|id: DiagnosticOccurrenceId| #[trigger]
                    log_terminal::least_repeated(numbers, id.number()),
            ),
        )
    } else if named is Some && !progress.emitted(named->0) && !(progress.prepared(named->0)
        && closes_with(terminal, named->0)) {
        Some(FinishError::UnknownDiagnostic(named->0))
    } else if !progress.connected {
        Some(FinishError::ChannelClosed)
    } else {
        None
    }
}

/// The progress after the attempt to finish a run: only the last check leaves a mark.
pub open spec fn after_finish(progress: Progress, error: Option<FinishError>) -> Progress {
    if error is None || error == Some(FinishError::ChannelClosed) {
        Progress { finalized: true, connected: false, ..progress }
    } else {
        progress
    }
}

/// The state that all producers of one run share.
#[derive(Debug)]
pub struct ProducerState {
    connected: bool,
    finalized: bool,
    terminal_preparing: bool,
    cancellation_requested: bool,
    phases: OrderedMap<PhaseState>,
    run_plan_resolved: bool,
    run_plan_finalized: bool,
    tasks_started: OrderedMap<()>,
    task_outcomes: OrderedMap<TaskCounterKind>,
    task_total: Option<u64>,
    translation_finished: bool,
    publication_started: bool,
    publication_finished: bool,
    occurrences: OrderedMap<OccurrenceRegistration>,
}

impl View for ProducerState {
    type V = Progress;

    closed spec fn view(&self) -> Progress {
        Progress {
            connected: self.connected,
            finalized: self.finalized,
            terminal_preparing: self.terminal_preparing,
            cancellation_requested: self.cancellation_requested,
            phases: self.phases@,
            run_plan_resolved: self.run_plan_resolved,
            run_plan_finalized: self.run_plan_finalized,
            started: self.tasks_started@.dom(),
            outcomes: self.task_outcomes@,
            task_total: self.task_total,
            translation_finished: self.translation_finished,
            publication_started: self.publication_started,
            publication_finished: self.publication_finished,
            occurrences: self.occurrences@,
        }
    }
}

fn outcome_count(outcomes: &OrderedMap<TaskCounterKind>, kind: TaskCounterKind) -> (count: u64)
    requires
        outcomes.ordered(),
    ensures
        count == ordered_map::count_of(outcomes@, kind),
{
    proof {
        outcomes.lemma_listed();
    }
    let total: usize = outcomes.len();
    let mut i: usize = 0;
    let mut count: u64 = 0;
    while i < total
        invariant
            outcomes.ordered(),
            total == outcomes@.dom().len(),
            total == outcomes.listed().len(),
            i <= total,
            count <= i,
            count == ordered_map::count_in(outcomes.listed().take(i as int), kind),
        decreases total - i,
    {
        let ghost listed = outcomes.listed();
        assert(listed.take(i + 1).drop_last() =~= listed.take(i as int));
        assert(listed.take(i + 1).last() == listed[i as int]);
        if outcomes.entry(i).1 == kind {
            count += 1;
        }
        i += 1;
    }
    proof {
        assert(outcomes.listed().take(total as int) =~= outcomes.listed());
        ordered_map::lemma_count(outcomes.listed(), kind);
    }
    count
}

impl ProducerState {
    pub closed spec fn well_formed(&self) -> bool {
        &&& self.phases.ordered()
        &&& self.tasks_started.ordered()
        &&& self.task_outcomes.ordered()
        &&& self.occurrences.ordered()
        &&& self@.coherent()
    }

    /// What holds of the progress of every state.
    pub proof fn lemma_coherent(&self)
        requires
            self.well_formed(),
        ensures
            self@.coherent(),
    {
    }

    pub fn new() -> (state: Self)
        ensures
            state.well_formed(),
            state@ == Progress::initial(),
    {
        let state = ProducerState {
            connected: true,
            finalized: false,
            terminal_preparing: false,
            cancellation_requested: false,
            phases: OrderedMap::new(),
            run_plan_resolved: false,
            run_plan_finalized: false,
            tasks_started: OrderedMap::new(),
            task_outcomes: OrderedMap::new(),
            task_total: None,
            translation_finished: false,
            publication_started: false,
            publication_finished: false,
            occurrences: OrderedMap::new(),
        };
        assert(state@.started =~= Set::<u64>::empty());
        assert(state@.outcomes.dom() =~= Set::<u64>::empty());
        state
    }

    fn registration(&self, id: DiagnosticOccurrenceId) -> (registration: Option<OccurrenceRegistration>)
        requires
            self.well_formed(),
        ensures
            registration == self@.registration(id),
    {
        self.occurrences.get(id.get())
    }

    /// Whether the diagnostic is in the log.
    pub fn contains_emitted_diagnostic(&self, id: DiagnosticOccurrenceId) -> (result: bool)
        requires
            self.well_formed(),
        ensures
            result == self@.emitted(id),
    {
        match self.registration(id) {
            Some(entry) => entry.state == OccurrenceState::Emitted,
            None => false,
        }
    }

    /// What the diagnostic is about.
    pub fn diagnostic_scope(&self, id: DiagnosticOccurrenceId) -> (scope: Option<DiagnosticScope>)
        requires
            self.well_formed(),
        ensures
            scope == self@.scope_of(id),
    {
        match self.registration(id) {
            Some(entry) => Some(entry.scope),
            None => None,
        }
    }

    pub fn is_finalized(&self) -> (result: bool)
        ensures
            result == self@.finalized,
    {
        self.finalized
    }

    /// Whether events are no longer taken.
    pub fn is_closed(&self) -> (result: bool)
        ensures
            result == self@.closed(),
    {
        self.finalized || self.terminal_preparing
    }

    pub fn is_connected(&self) -> (result: bool)
        ensures
            result == self@.connected,
    {
        self.connected
    }

    fn has_plan_diagnostic(&self) -> (result: bool)
        requires
            self.well_formed(),
        ensures
            result == self@.has_plan_diagnostic(),
    {
        proof {
            self.occurrences.lemma_listed();
            ordered_map::lemma_lookup(self.occurrences.listed());
        }
        let total: usize = self.occurrences.len();
        let mut i: usize = 0;
        while i < total
            invariant
                self.well_formed(),
                total == self.occurrences@.dom().len(),
                total == self.occurrences.listed().len(),
                i <= total,
                forall|k: int|
                    0 <= k < i ==> (#[trigger] self.occurrences.listed()[k]).1.scope
                        != DiagnosticScope::RunPlan,
            decreases total - i,
        {
            let entry = self.occurrences.entry(i);
            if entry.1.scope == DiagnosticScope::RunPlan {
                proof {
                    self.occurrences.lemma_listed();
                    ordered_map::lemma_lookup(self.occurrences.listed());
                    assert(self@.occurrences.dom().contains(self.occurrences.listed()[i as int].0));
                }
                return true;
            }
            i += 1;
        }
        proof {
            let listed = self.occurrences.listed();
            assert forall|key: u64| #[trigger] self@.occurrences.dom().contains(key) implies
                self@.occurrences[key].scope != DiagnosticScope::RunPlan by {
                let k = choose|k: int| 0 <= k < listed.len() && (#[trigger] listed[k]).0 == key;
                assert(self@.occurrences[listed[k].0] == listed[k].1);
            }
        }
        false
    }

    fn has_active_phase(&self) -> (result: bool)
        requires
            self.well_formed(),
        ensures
            result == exists|key: u64| #[trigger]
                self@.phases.dom().contains(key) && self@.phases[key] == PhaseState::Started,
    {
        proof {
            self.phases.lemma_listed();
            ordered_map::lemma_lookup(self.phases.listed());
        }
        let total: usize = self.phases.len();
        let mut i: usize = 0;
        while i < total
            invariant
                self.well_formed(),
                total == self.phases@.dom().len(),
                total == self.phases.listed().len(),
                i <= total,
                forall|k: int|
                    0 <= k < i ==> (#[trigger] self.phases.listed()[k]).1 != PhaseState::Started,
            decreases total - i,
        {
            let entry = self.phases.entry(i);
            if entry.1 == PhaseState::Started {
                proof {
                    self.phases.lemma_listed();
                    ordered_map::lemma_lookup(self.phases.listed());
                    assert(self@.phases.dom().contains(self.phases.listed()[i as int].0));
                }
                return true;
            }
            i += 1;
        }
        proof {
            let listed = self.phases.listed();
            assert forall|key: u64| #[trigger] self@.phases.dom().contains(key) implies
                self@.phases[key] != PhaseState::Started by {
                let k = choose|k: int| 0 <= k < listed.len() && (#[trigger] listed[k]).0 == key;
                assert(self@.phases[listed[k].0] == listed[k].1);
            }
        }
        false
    }

    /// Accepts counters that say of the started tasks what the log says.
    pub fn validate_task_counters(&self, counters: TranslationTaskCounters) -> (result: Result<
        (),
        EmitError,
    >)
        requires
            self.well_formed(),
        ensures
            result == (if self@.agrees(counters) {
                Ok(())
            } else {
                Err(EmitError::TaskSummaryMismatch)
            }),
    {
        let started: u64 = self.tasks_started.len() as u64;
        if counters.started != started {
            return Err(EmitError::TaskSummaryMismatch);
        }
        if outcome_count(&self.task_outcomes, TaskCounterKind::Complete) != counters.complete
            || outcome_count(&self.task_outcomes, TaskCounterKind::Partial) != counters.partial
            || outcome_count(&self.task_outcomes, TaskCounterKind::Unavailable)
            != counters.unavailable || outcome_count(&self.task_outcomes, TaskCounterKind::Failed)
            != counters.failed || outcome_count(&self.task_outcomes, TaskCounterKind::Cancelled)
            != counters.cancelled {
            return Err(EmitError::TaskSummaryMismatch);
        }
        Ok(())
    }

    fn has_unfinished_tasks(&self) -> (result: bool)
        requires
            self.well_formed(),
        ensures
            result == !self@.all_ended(),
    {
        proof {
            lemma_all_ended(self@);
        }
        self.tasks_started.len() != self.task_outcomes.len()
    }

    fn validate_translation(&self, result: &TranslationFinished, engine: ProjectLogEngine) -> (outcome:
        Result<(), EmitError>)
        requires
            self.well_formed(),
        ensures
            outcome == (match translation_error(self@, *result, engine) {
                Some(error) => Err(error),
                None => Ok(()),
            }),
    {
        if self.translation_finished {
            return Err(EmitError::DuplicateTranslationFinished);
        }
        match result.tasks() {
            Some(counters) => {
                self.validate_task_counters(counters)?;
                if let Some(total) = self.task_total {
                    if counters.planned != total {
                        return Err(EmitError::TaskSummaryMismatch);
                    }
                }
                if let TranslationFinished::NoWork { .. } = result {
                    if counters.planned != 0 {
                        return Err(EmitError::TaskSummaryMismatch);
                    }
                }
                if !result.has_summary_for(engine) {
                    return Err(EmitError::EngineSummaryMismatch);
                }
            },
            None => {
                if self.tasks_started.len() != 0 {
                    return Err(EmitError::TaskSummaryMismatch);
                }
            },
        }
        if let TranslationFinished::NotStarted = result {
            if self.has_plan_diagnostic() {
                return Err(EmitError::DiagnosticRequiresFailedTranslation);
            }
        }
        if let TranslationFinished::Failed { tasks, diagnostic, .. } = result {
            if self.diagnostic_scope(*diagnostic) == Some(DiagnosticScope::RunPlan) && (tasks.started
                != 0 || tasks.not_started != tasks.planned) {
                return Err(EmitError::PlanningFailureStartedTasks);
            }
        }
        if self.has_unfinished_tasks() {
            return Err(EmitError::UnfinishedTasks);
        }
        Ok(())
    }

    fn note_task_started(&mut self, task: TaskPosition) -> (result: Result<(), EmitError>)
        requires
            old(self).well_formed(),
        ensures
            final(self).well_formed(),
            (final(self)@, result) == task_started(old(self)@, task),
    {
        let ordinal: u64 = task.ordinal();
        if let Some(total) = self.task_total {
            if total != task.total() {
                return Err(EmitError::InconsistentTaskTotal);
            }
        }
        self.task_total = Some(task.total());
        let repeated = self.tasks_started.insert(ordinal, ()).is_some();
        assert(self@.started =~= old(self)@.started.insert(ordinal));
        assert(self@.started.contains(ordinal));
        if repeated {
            assert(self@.started =~= old(self)@.started);
            return Err(EmitError::DuplicateTask(ordinal));
        }
        Ok(())
    }

    fn note_task_finished(&mut self, task: TaskPosition, kind: TaskCounterKind) -> (result: Result<
        (),
        EmitError,
    >)
        requires
            old(self).well_formed(),
        ensures
            final(self).well_formed(),
            (final(self)@, result) == task_finished(old(self)@, task, kind),
    {
        let ordinal: u64 = task.ordinal();
        if self.task_total != Some(task.total()) {
            return Err(EmitError::InconsistentTaskTotal);
        }
        if self.tasks_started.get(ordinal).is_none() {
            return Err(EmitError::InvalidTaskTransition(ordinal));
        }
        if self.task_outcomes.get(ordinal).is_some() {
            return Err(EmitError::InvalidTaskTransition(ordinal));
        }
        self.task_outcomes.insert(ordinal, kind);
        Ok(())
    }

    /// Takes back what an event noted of a task; the event did not reach the log.
    pub fn withdraw(&mut self, event: &ProjectLogEvent)
        requires
            old(self).well_formed(),
        ensures
            final(self).well_formed(),
            final(self)@ == withdrawn(old(self)@, *event),
    {
        match event {
            ProjectLogEvent::TaskStarted { task } => {
                let ordinal: u64 = task.ordinal();
                self.tasks_started.remove(ordinal);
                self.task_outcomes.remove(ordinal);
                assert(self@.started =~= old(self)@.started.remove(ordinal));
                assert(self@.outcomes =~= old(self)@.outcomes.remove(ordinal));
                if self.tasks_started.len() == 0 {
                    assert(self@.started =~= Set::<u64>::empty());
                    self.task_total = None;
                }
            },
            ProjectLogEvent::TaskFinished { task, .. } => {
                self.task_outcomes.remove(task.ordinal());
                assert(self@.outcomes =~= old(self)@.outcomes.remove(task.number()));
            },
            _ => {},
        }
    }

    /// Checks an event against what was said before, and takes note of it.
    #[verifier::rlimit(40)]
    #[verifier::spinoff_prover]
    pub fn validate_event(&mut self, event: &ProjectLogEvent, context: &ProjectLogContext) -> (result:
        Result<EmitDisposition, EmitError>)
        requires
            old(self).well_formed(),
        ensures
            final(self).well_formed(),
            (final(self)@, result) == admitted(
                old(self)@,
                *event,
                context.for_command(),
                context.for_engine(),
            ),
    {
        if self.finalized || self.terminal_preparing {
            return Err(EmitError::Closed);
        }
        if let Some(diagnostic) = event.referenced_diagnostic() {
            if !self.contains_emitted_diagnostic(diagnostic) {
                return Err(EmitError::UnknownDiagnostic(diagnostic));
            }
            let expected_scope = match event {
                ProjectLogEvent::RunPlanFinalized { .. } => Some(DiagnosticScope::RunPlan),
                ProjectLogEvent::TaskFinished { .. } => Some(DiagnosticScope::TranslationTask),
                ProjectLogEvent::PublicationFinished { .. } => Some(DiagnosticScope::Publication),
                _ => None,
            };
            if expected_scope.is_some() && self.diagnostic_scope(diagnostic) != expected_scope {
                return Err(EmitError::InvalidDiagnosticScope(diagnostic));
            }
        }
        match event {
            ProjectLogEvent::RunStarted
            | ProjectLogEvent::ProjectLogDegraded { .. }
            | ProjectLogEvent::PerformanceCounters { .. }
            | ProjectLogEvent::RunFinished { .. }
            | ProjectLogEvent::Diagnostic { .. } => {
                return Err(EmitError::RuntimeManagedEvent { event: event.code() });
            },
            ProjectLogEvent::CancellationRequested { confirmed, total } => {
                if let Some(total) = total {
                    if *confirmed > *total {
                        return Err(
                            EmitError::InvalidCancellationCount {
                                confirmed: *confirmed,
                                total: *total,
                            },
                        );
                    }
                }
                if self.cancellation_requested {
                    return Ok(EmitDisposition::DuplicateSuppressed);
                }
                self.cancellation_requested = true;
            },
            ProjectLogEvent::PhaseStarted { phase, .. } => {
                if self.phases.get(phase.index()).is_some() {
                    return Err(EmitError::InvalidPhaseTransition(*phase));
                }
                self.phases.insert(phase.index(), PhaseState::Started);
            },
            ProjectLogEvent::PhaseCompleted { phase, .. } => {
                if self.phases.get(phase.index()) != Some(PhaseState::Started) {
                    return Err(EmitError::InvalidPhaseTransition(*phase));
                }
                self.phases.insert(phase.index(), PhaseState::Completed);
            },
            ProjectLogEvent::PhaseStopped { phase, .. } => {
                if self.phases.get(phase.index()) != Some(PhaseState::Started) {
                    return Err(EmitError::InvalidPhaseTransition(*phase));
                }
                self.phases.insert(phase.index(), PhaseState::Stopped);
            },
            ProjectLogEvent::RunPlanResolved { plan } => {
                if self.run_plan_resolved {
                    return Err(EmitError::DuplicateRunPlan);
                }
                if !plan.is_for(context.command()) {
                    return Err(EmitError::RunPlanCommandMismatch);
                }
                self.run_plan_resolved = true;
            },
            ProjectLogEvent::RunPlanFinalized { result, .. } => {
                if !self.run_plan_resolved || self.run_plan_finalized {
                    return Err(EmitError::InvalidRunPlanTransition);
                }
                if !result.is_consistent() {
                    return Err(EmitError::InvalidRunPlanTransaction);
                }
                self.run_plan_finalized = true;
            },
            ProjectLogEvent::TaskStarted { task } => {
                self.note_task_started(*task)?;
            },
            ProjectLogEvent::TaskFinished { task, outcome, .. } => {
                self.note_task_finished(*task, outcome.counter_kind())?;
            },
            ProjectLogEvent::TranslationFinished { result } => {
                self.validate_translation(result, context.engine())?;
                self.translation_finished = true;
            },
            ProjectLogEvent::PublicationStarted { .. } => {
                if self.publication_started {
                    return Err(EmitError::DuplicatePublication);
                }
                self.publication_started = true;
            },
            ProjectLogEvent::PublicationFinished { result } => {
                if !self.publication_started || self.publication_finished {
                    return Err(EmitError::InvalidPublicationTransition);
                }
                if let PublicationFinished::Published { summary } = result {
                    if !summary.is_for(context.engine()) {
                        return Err(EmitError::EngineSummaryMismatch);
                    }
                }
                self.publication_finished = true;
            },
            ProjectLogEvent::RetrySummary { attempted, recovered, exhausted } => {
                if recovered.checked_add(*exhausted) != Some(*attempted) {
                    return Err(
                        EmitError::InvalidRetrySummary {
                            attempted: *attempted,
                            recovered: *recovered,
                            exhausted: *exhausted,
                        },
                    );
                }
            },
            ProjectLogEvent::LuaPrint { .. } => {},
        }
        Ok(EmitDisposition::Accepted)
    }

    /// Checks that nothing of the run is left open.
    pub fn validate_normal_finish(&self, context: &ProjectLogContext) -> (result: Result<
        (),
        FinishError,
    >)
        requires
            self.well_formed(),
        ensures
            result == (match finish_gap(self@, context.for_command()) {
                Some(error) => Err(error),
                None => Ok(()),
            }),
    {
        if self.has_active_phase() {
            return Err(FinishError::ActivePhase);
        }
        if self.has_unfinished_tasks() {
            return Err(FinishError::UnfinishedTasks);
        }
        if self.run_plan_resolved && !self.run_plan_finalized {
            return Err(FinishError::UnfinalizedRunPlan);
        }
        if context.command() == ProjectLogCommand::Translate && !self.translation_finished {
            return Err(FinishError::MissingTranslationFinished);
        }
        if self.publication_started && !self.publication_finished {
            return Err(FinishError::MissingPublicationFinished);
        }
        Ok(())
    }

    /// Notes a numbered diagnostic.
    pub fn register(&mut self, id: DiagnosticOccurrenceId, state: OccurrenceState, scope: DiagnosticScope)
        requires
            old(self).well_formed(),
        ensures
            final(self).well_formed(),
            final(self)@ == old(self)@.with_occurrence(id, state, scope),
    {
        self.occurrences.insert(id.get(), OccurrenceRegistration { state, scope });
    }

    /// Forgets a diagnostic that did not reach the log.
    pub fn forget(&mut self, id: DiagnosticOccurrenceId)
        requires
            old(self).well_formed(),
        ensures
            final(self).well_formed(),
            final(self)@ == old(self)@.without_occurrence(id),
    {
        self.occurrences.remove(id.get());
    }

    /// Takes no more events; only closing diagnostics may follow.
    pub fn begin_terminal(&mut self)
        requires
            old(self).well_formed(),
        ensures
            final(self).well_formed(),
            final(self)@ == (Progress { terminal_preparing: true, ..old(self)@ }),
    {
        self.terminal_preparing = true;
    }

    /// Lets go of the writer.
    pub fn disconnect(&mut self)
        requires
            old(self).well_formed(),
        ensures
            final(self).well_formed(),
            final(self)@ == (Progress { connected: false, ..old(self)@ }),
    {
        self.connected = false;
    }

    /// The counters that the log itself can vouch for; tasks that were planned and never
    /// started make up the difference.
    pub fn translation_task_counters(&self, planned: u64) -> (result: Result<
        TranslationTaskCounters,
        EmitError,
    >)
        requires
            self.well_formed(),
        ensures
            match result {
                Ok(counters) => {
                    &&& counters_owed(self@, planned)
                    &&& counters.planned == planned
                    &&& counters.not_started == planned - self@.started.len()
                    &&& self@.agrees(counters)
                },
                Err(error) => error == EmitError::TaskSummaryMismatch && !counters_owed(self@, planned),
            },
    {
        if let Some(total) = self.task_total {
            if total != planned {
                return Err(EmitError::TaskSummaryMismatch);
            }
        }
        let started: u64 = self.tasks_started.len() as u64;
        if planned < started {
            return Err(EmitError::TaskSummaryMismatch);
        }
        proof {
            let listed = self.task_outcomes.listed();
            lemma_all_ended(self@);
            self.task_outcomes.lemma_listed();
            lemma_kinds_add_up(listed);
            ordered_map::lemma_count(listed, TaskCounterKind::Complete);
            ordered_map::lemma_count(listed, TaskCounterKind::Partial);
            ordered_map::lemma_count(listed, TaskCounterKind::Unavailable);
            ordered_map::lemma_count(listed, TaskCounterKind::Failed);
            ordered_map::lemma_count(listed, TaskCounterKind::Cancelled);
        }
        match TranslationTaskCounters::new(
            planned,
            started,
            outcome_count(&self.task_outcomes, TaskCounterKind::Complete),
            outcome_count(&self.task_outcomes, TaskCounterKind::Partial),
            outcome_count(&self.task_outcomes, TaskCounterKind::Unavailable),
            outcome_count(&self.task_outcomes, TaskCounterKind::Failed),
            outcome_count(&self.task_outcomes, TaskCounterKind::Cancelled),
            planned - started,
        ) {
            Ok(counters) => Ok(counters),
            Err(_) => Err(EmitError::TaskSummaryMismatch),
        }
    }

    /// Ends the run, if everything in it has come to its end and the closing diagnostics
    /// are known, or at once when forced. The closing diagnostics come back in the order
    /// of their numbers.
    pub fn finish(
        &mut self,
        result: &RunFinished,
        terminal: Vec<PreparedTerminalDiagnostic>,
        context: &ProjectLogContext,
        force: bool,
    ) -> (outcome: Result<Vec<DiagnosticOccurrence>, FinishError>)
        requires
            old(self).well_formed(),
        ensures
            final(self).well_formed(),
            final(self)@ == after_finish(
                old(self)@,
                finish_error(old(self)@, terminal@, result.named(), context.for_command(), force),
            ),
            match outcome {
                Ok(ordered) => {
                    &&& finish_error(
                        old(self)@,
                        terminal@,
                        result.named(),
                        context.for_command(),
                        force,
                    ) is None
                    &&& log_terminal::strictly_ascending(log_terminal::numbers_of(ordered@))
                    &&& ordered@.to_multiset() == log_terminal::occurrences_of(
                        terminal@,
                    ).to_multiset()
                },
                Err(error) => finish_error(
                    old(self)@,
                    terminal@,
                    result.named(),
                    context.for_command(),
                    force,
                ) == Some(error),
            },
    {
        if self.finalized {
            return Err(FinishError::AlreadyFinished);
        }
        if !force {
            if let Err(error) = self.validate_normal_finish(context) {
                return Err(error);
            }
        }
        let ghost numbers = log_terminal::numbers_of(log_terminal::occurrences_of(terminal@));
        let ghost stranger = unprepared(self@, terminal@);
        let mut i: usize = 0;
        while i < terminal.len()
            invariant
                self.well_formed(),
                *self == *old(self),
                i <= terminal.len(),
                stranger == unprepared(self@, terminal@),
                forall|k: int| 0 <= k < i ==> !#[trigger] stranger(k),
                !self@.finalized,
                force || finish_gap(self@, context.for_command()) is None,
            decreases terminal.len() - i,
        {
            let id = terminal[i].id();
            let prepared = match self.registration(id) {
                Some(entry) => entry.state == OccurrenceState::PreparedTerminal,
                None => false,
            };
            assert(prepared == !stranger(i as int));
            if !prepared {
                proof {
                    search::lemma_first_found(stranger, 0, terminal.len() as int, i as int);
                }
                return Err(FinishError::InvalidTerminalDiagnostic(id));
            }
            i += 1;
        }
        proof {
            search::lemma_first_absent(stranger, 0, terminal.len() as int);
        }
        let mut named_closes = false;
        let named = result.diagnostic();
        if let Some(id) = named {
            named_closes = closes(&terminal, id);
        }
        let ordered = in_order_of_number(terminal);
        assert(forall|number: u64|
            #[trigger] log_terminal::repeated(numbers, number) == log_terminal::repeated(
                log_terminal::numbers_of(ordered@),
                number,
            ));
        if let Some(id) = first_repetition(&ordered) {
            proof {
                assert(log_terminal::repeated(numbers, id.number()));
                assert forall|other: u64| #[trigger] log_terminal::repeated(
                    numbers,
                    other,
                ) implies id.number() <= other by {
                    assert(log_terminal::repeated(log_terminal::numbers_of(ordered@), other));
                }
                assert(log_terminal::least_repeated(numbers, id.number()));
                let chosen = choose|id: DiagnosticOccurrenceId| #[trigger]
                    log_terminal::least_repeated(numbers, id.number());
                assert(log_terminal::repeated(numbers, chosen.number()));
                chosen.lemma_number_identifies(id);
            }
            return Err(FinishError::InvalidTerminalDiagnostic(id));
        }
        if let Some(id) = named {
            let known = match self.registration(id) {
                Some(entry) => entry.state == OccurrenceState::Emitted || named_closes,
                None => false,
            };
            if !known {
                return Err(FinishError::UnknownDiagnostic(id));
            }
        }
        self.finalized = true;
        if !self.connected {
            return Err(FinishError::ChannelClosed);
        }
        self.connected = false;
        Ok(ordered)
    }
}

/// Outcomes belong to started tasks, so all have ended when there are as many of both.
pub proof fn lemma_all_ended(progress: Progress)
    requires
        progress.coherent(),
    ensures
        progress.all_ended() <==> progress.outcomes.dom() == progress.started,
        progress.all_ended() <==> progress.outcomes.dom().len() == progress.started.len(),
{
    if progress.all_ended() {
        assert(progress.outcomes.dom() =~= progress.started);
    }
    if progress.outcomes.dom().len() == progress.started.len() {
        vstd::set_lib::lemma_subset_equality(progress.outcomes.dom(), progress.started);
    }
}

/// Whether the log can vouch for `planned` tasks.
pub open spec fn counters_owed(progress: Progress, planned: u64) -> bool {
    &&& progress.task_total is Some ==> progress.task_total->0 == planned
    &&& progress.started.len() <= planned
    &&& progress.all_ended()
}

/// Every outcome is of one kind.
proof fn lemma_kinds_add_up(entries: Seq<(u64, TaskCounterKind)>)
    ensures
        entries.len() == ordered_map::count_in(entries, TaskCounterKind::Complete)
            + ordered_map::count_in(entries, TaskCounterKind::Partial) + ordered_map::count_in(
            entries,
            TaskCounterKind::Unavailable,
        ) + ordered_map::count_in(entries, TaskCounterKind::Failed) + ordered_map::count_in(
            entries,
            TaskCounterKind::Cancelled,
        ),
    decreases entries.len(),
{
    if entries.len() > 0 {
        lemma_kinds_add_up(entries.drop_last());
    }
}

fn closes(terminal: &Vec<PreparedTerminalDiagnostic>, id: DiagnosticOccurrenceId) -> (found: bool)
    ensures
        found == closes_with(terminal@, id),
{
    let mut i: usize = 0;
    while i < terminal.len()
        invariant
            i <= terminal.len(),
            forall|k: int| 0 <= k < i ==> (#[trigger] terminal[k]).held().identity() != id,
        decreases terminal.len() - i,
    {
        if terminal[i].id().get() == id.get() {
            proof {
                terminal[i as int].held().identity().lemma_number_identifies(id);
            }
            return true;
        }
        i += 1;
    }
    false
}

} // verus!
