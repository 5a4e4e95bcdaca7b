//! What holds of every event: its code, its level, its words and its payload tell what it
//! carries.

use vstd::prelude::*;
use vstd::std_specs::convert::FromSpec;
use crate::diagnostic::{ObservabilityEventCode, ObservabilityProjectLogPhase};
use crate::log_event::{
    DiagnosticOccurrenceId, DiagnosticScope, PhaseStopOutcome, ProjectLogCode, ProjectLogCommand, ProjectLogEngine,
    ProjectLogEvent, ProjectLogLocale, ProjectLogPhase, PublicationFinished, PublicationSummary,
    ResolvedRunPlan, RunFinished, RunPlanFinalization, RunPlanTransactionState, RunPlanValueSource,
    TaskFinishedOutcome, TranslationEngineSummary, TranslationFinished, TranslationTaskCounters,
    UiLocale, UiMessage,
};
use crate::log_payload;
use crate::log_payload::{ProjectLogPayloadRef, RenderedDiagnostic};

verus! {

/// The names of the codes in log lines: readers find events by them.
pub proof fn codes_have_stable_names(code: ProjectLogCode)
    ensures
        code is RunStarted ==> code.name() == "run.started",
        code is CancellationRequested ==> code.name() == "run.cancel_requested",
        code is PhaseStarted ==> code.name() == "phase.started",
        code is PhaseCompleted ==> code.name() == "phase.completed",
        code is PhaseStopped ==> code.name() == "phase.stopped",
        code is RunPlanResolved ==> code.name() == "run_plan.resolved",
        code is RunPlanFinalized ==> code.name() == "run_plan.finalized",
        code is TaskStarted ==> code.name() == "task.started",
        code is TaskFinished ==> code.name() == "task.finished",
        code is TranslationFinished ==> code.name() == "translation.finished",
        code is RetrySummary ==> code.name() == "retry.summary",
        code is PublicationStarted ==> code.name() == "publication.started",
        code is PublicationFinished ==> code.name() == "publication.finished",
        code is LuaPrint ==> code.name() == "lua.print",
        code is RunDiagnostic ==> code.name() == "diagnostic.run",
        code is RunPlanDiagnostic ==> code.name() == "diagnostic.run_plan",
        code is TranslationTaskDiagnostic ==> code.name() == "diagnostic.translation_task",
        code is ExtractDiagnostic ==> code.name() == "diagnostic.extract",
        code is WriteBackDiagnostic ==> code.name() == "diagnostic.write_back",
        code is PublicationDiagnostic ==> code.name() == "diagnostic.publication",
        code is TaskRecordDiagnostic ==> code.name() == "diagnostic.task_record",
        code is ProjectLogDiagnostic ==> code.name() == "diagnostic.project_log",
        code is ProjectLogDegraded ==> code.name() == "observability.project_log_degraded",
        code is PerformanceCounters ==> code.name() == "performance.counters",
        code is RunFinished ==> code.name() == "run.finished",
{
}

/// The names of the commands in log lines.
pub proof fn commands_have_stable_names(command: ProjectLogCommand)
    ensures
        command is Init ==> command.name() == "init",
        command is Extract ==> command.name() == "extract",
        command is Builtin ==> command.name() == "builtin",
        command is Rules ==> command.name() == "rules",
        command is Translate ==> command.name() == "translate",
        command is WriteBack ==> command.name() == "write_back",
        command is Lua ==> command.name() == "lua",
{
}

/// The names of the phases in log lines.
pub proof fn phases_have_stable_names(phase: ProjectLogPhase)
    ensures
        phase is CheckProject ==> phase.name() == "check_project",
        phase is ScanSource ==> phase.name() == "scan_source",
        phase is PrepareCandidate ==> phase.name() == "prepare_candidate",
        phase is UpdateDatabase ==> phase.name() == "update_database",
        phase is Publish ==> phase.name() == "publish",
        phase is Builtin ==> phase.name() == "builtin",
        phase is BuiltinDocuments ==> phase.name() == "builtin_documents",
        phase is BuiltinWorkUnits ==> phase.name() == "builtin_work_units",
        phase is BuiltinCommit ==> phase.name() == "builtin_commit",
        phase is Rules ==> phase.name() == "rules",
        phase is RulesDocuments ==> phase.name() == "rules_documents",
        phase is RulesMatches ==> phase.name() == "rules_matches",
        phase is RulesCommit ==> phase.name() == "rules_commit",
        phase is Lua ==> phase.name() == "lua",
        phase is Planning ==> phase.name() == "planning",
        phase is ConfirmedTasks ==> phase.name() == "confirmed_tasks",
        phase is ReadAssets ==> phase.name() == "read_assets",
        phase is PlanRpgMakerWriteBack ==> phase.name() == "plan_rpg_maker_write_back",
        phase is RewriteDocuments ==> phase.name() == "rewrite_documents",
        phase is ValidateCandidate ==> phase.name() == "validate_candidate",
{
}

/// The names of the places that a plan can come from.
pub proof fn plan_sources_have_stable_names(source: RunPlanValueSource)
    ensures
        source is Explicit ==> source.name() == "explicit",
        source is ProjectState ==> source.name() == "project_state",
        source is ProductDefault ==> source.name() == "product_default",
{
}

/// The names of the ways in which a plan can be saved or not.
pub proof fn plan_results_have_stable_names(result: RunPlanFinalization)
    ensures
        result is Saved ==> result.result_name() == "saved",
        result is NotSaved ==> result.result_name() == "not_saved",
        result is SavedFinalizationFailed ==> result.result_name() == "saved_finalization_failed",
        result is OutcomeUnknown ==> result.result_name() == "outcome_unknown",
{
}

/// The names of the ways in which a task can end.
pub proof fn task_outcomes_have_stable_names(outcome: TaskFinishedOutcome)
    ensures
        outcome is Complete ==> outcome.name() == "complete",
        outcome is Partial ==> outcome.name() == "partial",
        outcome is Unavailable ==> outcome.name() == "unavailable",
        outcome is Failed ==> outcome.name() == "failed",
        outcome is NotCommittedAfterEarlierFailure ==> outcome.name() == "not_committed_after_earlier_failure",
        outcome is Cancelled ==> outcome.name() == "cancelled",
{
}

/// The names of the ways in which a translation can end.
pub proof fn translation_results_have_stable_names(result: TranslationFinished)
    ensures
        result is NotStarted ==> result.result_name() == "not_started",
        result is NoWork ==> result.result_name() == "no_work",
        result is Complete ==> result.result_name() == "complete",
        result is Incomplete ==> result.result_name() == "incomplete",
        result is Failed ==> result.result_name() == "failed",
        result is Cancelled ==> result.result_name() == "cancelled",
{
}

/// The names of the ways in which a publication can end.
pub proof fn publication_results_have_stable_names(result: PublicationFinished)
    ensures
        result is Published ==> result.result_name() == "published",
        result is NotPublished ==> result.result_name() == "not_published",
        result is RecoveryRequired ==> result.result_name() == "recovery_required",
        result is OutcomeUnknown ==> result.result_name() == "outcome_unknown",
{
}

/// A failure of the log tells of an event by the event's own code.
pub proof fn codes_are_told_by_their_own_name(code: ProjectLogCode)
    ensures
        code is RunStarted <==> <ObservabilityEventCode as FromSpec<ProjectLogCode>>::from_spec(code) is RunStarted,
        code is CancellationRequested <==> <ObservabilityEventCode as FromSpec<ProjectLogCode>>::from_spec(code) is CancellationRequested,
        code is PhaseStarted <==> <ObservabilityEventCode as FromSpec<ProjectLogCode>>::from_spec(code) is PhaseStarted,
        code is PhaseCompleted <==> <ObservabilityEventCode as FromSpec<ProjectLogCode>>::from_spec(code) is PhaseCompleted,
        code is PhaseStopped <==> <ObservabilityEventCode as FromSpec<ProjectLogCode>>::from_spec(code) is PhaseStopped,
        code is RunPlanResolved <==> <ObservabilityEventCode as FromSpec<ProjectLogCode>>::from_spec(code) is RunPlanResolved,
        code is RunPlanFinalized <==> <ObservabilityEventCode as FromSpec<ProjectLogCode>>::from_spec(code) is RunPlanFinalized,
        code is TaskStarted <==> <ObservabilityEventCode as FromSpec<ProjectLogCode>>::from_spec(code) is TaskStarted,
        code is TaskFinished <==> <ObservabilityEventCode as FromSpec<ProjectLogCode>>::from_spec(code) is TaskFinished,
        code is TranslationFinished <==> <ObservabilityEventCode as FromSpec<ProjectLogCode>>::from_spec(code) is TranslationFinished,
        code is RetrySummary <==> <ObservabilityEventCode as FromSpec<ProjectLogCode>>::from_spec(code) is RetrySummary,
        code is PublicationStarted <==> <ObservabilityEventCode as FromSpec<ProjectLogCode>>::from_spec(code) is PublicationStarted,
        code is PublicationFinished <==> <ObservabilityEventCode as FromSpec<ProjectLogCode>>::from_spec(code) is PublicationFinished,
        code is LuaPrint <==> <ObservabilityEventCode as FromSpec<ProjectLogCode>>::from_spec(code) is LuaPrint,
        code is RunDiagnostic <==> <ObservabilityEventCode as FromSpec<ProjectLogCode>>::from_spec(code) is RunDiagnostic,
        code is RunPlanDiagnostic <==> <ObservabilityEventCode as FromSpec<ProjectLogCode>>::from_spec(code) is RunPlanDiagnostic,
        code is TranslationTaskDiagnostic <==> <ObservabilityEventCode as FromSpec<ProjectLogCode>>::from_spec(code) is TranslationTaskDiagnostic,
        code is ExtractDiagnostic <==> <ObservabilityEventCode as FromSpec<ProjectLogCode>>::from_spec(code) is ExtractDiagnostic,
        code is WriteBackDiagnostic <==> <ObservabilityEventCode as FromSpec<ProjectLogCode>>::from_spec(code) is WriteBackDiagnostic,
        code is PublicationDiagnostic <==> <ObservabilityEventCode as FromSpec<ProjectLogCode>>::from_spec(code) is PublicationDiagnostic,
        code is TaskRecordDiagnostic <==> <ObservabilityEventCode as FromSpec<ProjectLogCode>>::from_spec(code) is TaskRecordDiagnostic,
        code is ProjectLogDiagnostic <==> <ObservabilityEventCode as FromSpec<ProjectLogCode>>::from_spec(code) is ProjectLogDiagnostic,
        code is ProjectLogDegraded <==> <ObservabilityEventCode as FromSpec<ProjectLogCode>>::from_spec(code) is ProjectLogDegraded,
        code is PerformanceCounters <==> <ObservabilityEventCode as FromSpec<ProjectLogCode>>::from_spec(code) is PerformanceCounters,
        code is RunFinished <==> <ObservabilityEventCode as FromSpec<ProjectLogCode>>::from_spec(code) is RunFinished,
{
}

/// A failure of the log tells of a phase by the phase itself.
pub proof fn phases_are_told_by_their_own_name(phase: ProjectLogPhase)
    ensures
        phase is CheckProject <==> <ObservabilityProjectLogPhase as FromSpec<ProjectLogPhase>>::from_spec(phase) is CheckProject,
        phase is ScanSource <==> <ObservabilityProjectLogPhase as FromSpec<ProjectLogPhase>>::from_spec(phase) is ScanSource,
        phase is PrepareCandidate <==> <ObservabilityProjectLogPhase as FromSpec<ProjectLogPhase>>::from_spec(phase) is PrepareCandidate,
        phase is UpdateDatabase <==> <ObservabilityProjectLogPhase as FromSpec<ProjectLogPhase>>::from_spec(phase) is UpdateDatabase,
        phase is Publish <==> <ObservabilityProjectLogPhase as FromSpec<ProjectLogPhase>>::from_spec(phase) is Publish,
        phase is Builtin <==> <ObservabilityProjectLogPhase as FromSpec<ProjectLogPhase>>::from_spec(phase) is Builtin,
        phase is BuiltinDocuments <==> <ObservabilityProjectLogPhase as FromSpec<ProjectLogPhase>>::from_spec(phase) is BuiltinDocuments,
        phase is BuiltinWorkUnits <==> <ObservabilityProjectLogPhase as FromSpec<ProjectLogPhase>>::from_spec(phase) is BuiltinWorkUnits,
        phase is BuiltinCommit <==> <ObservabilityProjectLogPhase as FromSpec<ProjectLogPhase>>::from_spec(phase) is BuiltinCommit,
        phase is Rules <==> <ObservabilityProjectLogPhase as FromSpec<ProjectLogPhase>>::from_spec(phase) is Rules,
        phase is RulesDocuments <==> <ObservabilityProjectLogPhase as FromSpec<ProjectLogPhase>>::from_spec(phase) is RulesDocuments,
        phase is RulesMatches <==> <ObservabilityProjectLogPhase as FromSpec<ProjectLogPhase>>::from_spec(phase) is RulesMatches,
        phase is RulesCommit <==> <ObservabilityProjectLogPhase as FromSpec<ProjectLogPhase>>::from_spec(phase) is RulesCommit,
        phase is Lua <==> <ObservabilityProjectLogPhase as FromSpec<ProjectLogPhase>>::from_spec(phase) is Lua,
        phase is Planning <==> <ObservabilityProjectLogPhase as FromSpec<ProjectLogPhase>>::from_spec(phase) is Planning,
        phase is ConfirmedTasks <==> <ObservabilityProjectLogPhase as FromSpec<ProjectLogPhase>>::from_spec(phase) is ConfirmedTasks,
        phase is ReadAssets <==> <ObservabilityProjectLogPhase as FromSpec<ProjectLogPhase>>::from_spec(phase) is ReadAssets,
        phase is PlanRpgMakerWriteBack <==> <ObservabilityProjectLogPhase as FromSpec<ProjectLogPhase>>::from_spec(phase) is PlanRpgMakerWriteBack,
        phase is RewriteDocuments <==> <ObservabilityProjectLogPhase as FromSpec<ProjectLogPhase>>::from_spec(phase) is RewriteDocuments,
        phase is ValidateCandidate <==> <ObservabilityProjectLogPhase as FromSpec<ProjectLogPhase>>::from_spec(phase) is ValidateCandidate,
{
}

/// A log is written in the language of the user interface, and the language can be read
/// back from it.
pub proof fn logs_keep_the_language(locale: UiLocale)
    ensures
        <ProjectLogLocale as FromSpec<UiLocale>>::from_spec(locale).ui() == locale,
        locale is Arabic <==> <ProjectLogLocale as FromSpec<UiLocale>>::from_spec(locale) is Arabic,
        locale is SimplifiedChinese <==> <ProjectLogLocale as FromSpec<UiLocale>>::from_spec(locale) is SimplifiedChinese,
        locale is TraditionalChinese <==> <ProjectLogLocale as FromSpec<UiLocale>>::from_spec(locale) is TraditionalChinese,
        locale is English <==> <ProjectLogLocale as FromSpec<UiLocale>>::from_spec(locale) is English,
        locale is French <==> <ProjectLogLocale as FromSpec<UiLocale>>::from_spec(locale) is French,
        locale is Russian <==> <ProjectLogLocale as FromSpec<UiLocale>>::from_spec(locale) is Russian,
        locale is Spanish <==> <ProjectLogLocale as FromSpec<UiLocale>>::from_spec(locale) is Spanish,
        locale is Japanese <==> <ProjectLogLocale as FromSpec<UiLocale>>::from_spec(locale) is Japanese,
        locale is Korean <==> <ProjectLogLocale as FromSpec<UiLocale>>::from_spec(locale) is Korean,
        locale is Vietnamese <==> <ProjectLogLocale as FromSpec<UiLocale>>::from_spec(locale) is Vietnamese,
        locale is Arabic <==> <ProjectLogLocale as FromSpec<UiLocale>>::from_spec(locale) is Arabic,
        locale is SimplifiedChinese <==> <ProjectLogLocale as FromSpec<UiLocale>>::from_spec(locale) is SimplifiedChinese,
        locale is TraditionalChinese <==> <ProjectLogLocale as FromSpec<UiLocale>>::from_spec(locale) is TraditionalChinese,
{
}

/// Codes are ordered as they are listed, each in a place of its own.
pub proof fn codes_have_one_place_each(left: ProjectLogCode, right: ProjectLogCode)
    ensures
        left.position() == right.position() <==> left == right,
        0 <= left.position() < 25,
        left is RunStarted && right is CancellationRequested ==> left.position() < right.position(),
        left is CancellationRequested && right is PhaseStarted ==> left.position() < right.position(),
        left is PhaseStarted && right is PhaseCompleted ==> left.position() < right.position(),
        left is PhaseCompleted && right is PhaseStopped ==> left.position() < right.position(),
        left is PhaseStopped && right is RunPlanResolved ==> left.position() < right.position(),
        left is RunPlanResolved && right is RunPlanFinalized ==> left.position() < right.position(),
        left is RunPlanFinalized && right is TaskStarted ==> left.position() < right.position(),
        left is TaskStarted && right is TaskFinished ==> left.position() < right.position(),
        left is TaskFinished && right is TranslationFinished ==> left.position() < right.position(),
        left is TranslationFinished && right is RetrySummary ==> left.position() < right.position(),
        left is RetrySummary && right is PublicationStarted ==> left.position() < right.position(),
        left is PublicationStarted && right is PublicationFinished ==> left.position() < right.position(),
        left is PublicationFinished && right is LuaPrint ==> left.position() < right.position(),
        left is LuaPrint && right is RunDiagnostic ==> left.position() < right.position(),
        left is RunDiagnostic && right is RunPlanDiagnostic ==> left.position() < right.position(),
        left is RunPlanDiagnostic && right is TranslationTaskDiagnostic ==> left.position() < right.position(),
        left is TranslationTaskDiagnostic && right is ExtractDiagnostic ==> left.position() < right.position(),
        left is ExtractDiagnostic && right is WriteBackDiagnostic ==> left.position() < right.position(),
        left is WriteBackDiagnostic && right is PublicationDiagnostic ==> left.position() < right.position(),
        left is PublicationDiagnostic && right is TaskRecordDiagnostic ==> left.position() < right.position(),
        left is TaskRecordDiagnostic && right is ProjectLogDiagnostic ==> left.position() < right.position(),
        left is ProjectLogDiagnostic && right is ProjectLogDegraded ==> left.position() < right.position(),
        left is ProjectLogDegraded && right is PerformanceCounters ==> left.position() < right.position(),
        left is PerformanceCounters && right is RunFinished ==> left.position() < right.position(),
{
}

/// Phases are ordered as they are listed, each in a place of its own.
pub proof fn phases_have_one_place_each(left: ProjectLogPhase, right: ProjectLogPhase)
    ensures
        left.position() == right.position() <==> left == right,
        0 <= left.position() < 20,
        left is CheckProject && right is ScanSource ==> left.position() < right.position(),
        left is ScanSource && right is PrepareCandidate ==> left.position() < right.position(),
        left is PrepareCandidate && right is UpdateDatabase ==> left.position() < right.position(),
        left is UpdateDatabase && right is Publish ==> left.position() < right.position(),
        left is Publish && right is Builtin ==> left.position() < right.position(),
        left is Builtin && right is BuiltinDocuments ==> left.position() < right.position(),
        left is BuiltinDocuments && right is BuiltinWorkUnits ==> left.position() < right.position(),
        left is BuiltinWorkUnits && right is BuiltinCommit ==> left.position() < right.position(),
        left is BuiltinCommit && right is Rules ==> left.position() < right.position(),
        left is Rules && right is RulesDocuments ==> left.position() < right.position(),
        left is RulesDocuments && right is RulesMatches ==> left.position() < right.position(),
        left is RulesMatches && right is RulesCommit ==> left.position() < right.position(),
        left is RulesCommit && right is Lua ==> left.position() < right.position(),
        left is Lua && right is Planning ==> left.position() < right.position(),
        left is Planning && right is ConfirmedTasks ==> left.position() < right.position(),
        left is ConfirmedTasks && right is ReadAssets ==> left.position() < right.position(),
        left is ReadAssets && right is PlanRpgMakerWriteBack ==> left.position() < right.position(),
        left is PlanRpgMakerWriteBack && right is RewriteDocuments ==> left.position() < right.position(),
        left is RewriteDocuments && right is ValidateCandidate ==> left.position() < right.position(),
{
}

/// An event's code says which event it is; that of a diagnostic says what it is about.
pub proof fn codes_say_what_happened(event: ProjectLogEvent)
    ensures
        event is RunStarted <==> event.kind() is RunStarted,
        event is CancellationRequested <==> event.kind() is CancellationRequested,
        event is PhaseStarted <==> event.kind() is PhaseStarted,
        event is PhaseCompleted <==> event.kind() is PhaseCompleted,
        event is PhaseStopped <==> event.kind() is PhaseStopped,
        event is RunPlanResolved <==> event.kind() is RunPlanResolved,
        event is RunPlanFinalized <==> event.kind() is RunPlanFinalized,
        event is TaskStarted <==> event.kind() is TaskStarted,
        event is TaskFinished <==> event.kind() is TaskFinished,
        event is TranslationFinished <==> event.kind() is TranslationFinished,
        event is RetrySummary <==> event.kind() is RetrySummary,
        event is PublicationStarted <==> event.kind() is PublicationStarted,
        event is PublicationFinished <==> event.kind() is PublicationFinished,
        event is LuaPrint <==> event.kind() is LuaPrint,
        event is ProjectLogDegraded <==> event.kind() is ProjectLogDegraded,
        event is PerformanceCounters <==> event.kind() is PerformanceCounters,
        event is RunFinished <==> event.kind() is RunFinished,
        (event matches ProjectLogEvent::Diagnostic { occurrence } && occurrence.about() is Run) <==> event.kind()
            is RunDiagnostic,
        (event matches ProjectLogEvent::Diagnostic { occurrence } && occurrence.about() is RunPlan) <==> event.kind()
            is RunPlanDiagnostic,
        (event matches ProjectLogEvent::Diagnostic { occurrence } && occurrence.about() is TranslationTask) <==> event.kind()
            is TranslationTaskDiagnostic,
        (event matches ProjectLogEvent::Diagnostic { occurrence } && occurrence.about() is Extract) <==> event.kind()
            is ExtractDiagnostic,
        (event matches ProjectLogEvent::Diagnostic { occurrence } && occurrence.about() is WriteBack) <==> event.kind()
            is WriteBackDiagnostic,
        (event matches ProjectLogEvent::Diagnostic { occurrence } && occurrence.about() is Publication) <==> event.kind()
            is PublicationDiagnostic,
        (event matches ProjectLogEvent::Diagnostic { occurrence } && occurrence.about() is TaskRecord) <==> event.kind()
            is TaskRecordDiagnostic,
        (event matches ProjectLogEvent::Diagnostic { occurrence } && occurrence.about() is ProjectLog) <==> event.kind()
            is ProjectLogDiagnostic,
{
}

/// Whether an event carries `id` in the one place where such an event has a diagnostic.
pub open spec fn carries(event: ProjectLogEvent, id: DiagnosticOccurrenceId) -> bool {
    ||| event matches ProjectLogEvent::PhaseStopped {
        outcome: PhaseStopOutcome::Failed { diagnostic },
        ..
    } && diagnostic == id
    ||| event matches ProjectLogEvent::RunPlanFinalized { result, .. } && (result == (
    RunPlanFinalization::NotSaved {
        transaction: result->NotSaved_transaction,
        run_continues: result->NotSaved_run_continues,
        diagnostic: id,
    }) || result == (RunPlanFinalization::SavedFinalizationFailed {
        transaction: result->SavedFinalizationFailed_transaction,
        run_continues: result->SavedFinalizationFailed_run_continues,
        diagnostic: id,
    }) || result == (RunPlanFinalization::OutcomeUnknown {
        transaction: result->OutcomeUnknown_transaction,
        run_continues: result->OutcomeUnknown_run_continues,
        diagnostic: id,
    }))
    ||| event matches ProjectLogEvent::TaskFinished { outcome, .. } && (outcome == (
    TaskFinishedOutcome::Partial { diagnostic: id }) || outcome == (TaskFinishedOutcome::Unavailable {
        diagnostic: id,
    }) || outcome == (TaskFinishedOutcome::Failed { diagnostic: id }) || outcome == (
    TaskFinishedOutcome::NotCommittedAfterEarlierFailure { diagnostic: id }))
    ||| event matches ProjectLogEvent::TranslationFinished {
        result: TranslationFinished::Failed { diagnostic, .. },
    } && diagnostic == id
    ||| event matches ProjectLogEvent::PublicationFinished { result } && (result == (
    PublicationFinished::NotPublished { diagnostic: id }) || result == (
    PublicationFinished::RecoveryRequired { diagnostic: id }) || result == (
    PublicationFinished::OutcomeUnknown { diagnostic: id }))
    ||| event matches ProjectLogEvent::RunFinished { result } && (result == (RunFinished::Failed {
        diagnostic: id,
    }) || result == (RunFinished::RecoveryRequired { diagnostic: id }) || result == (
    RunFinished::OutcomeUnknown { diagnostic: id }))
}

/// An event refers to the diagnostic that it carries, and to no other.
pub proof fn events_refer_to_what_they_carry(event: ProjectLogEvent, id: DiagnosticOccurrenceId)
    ensures
        event.named() == Some(id) <==> carries(event, id),
        event matches ProjectLogEvent::RunFinished { result } ==> result.named() == event.named(),
{
}

/// An event is an error exactly when it tells of a failure or of an unknown outcome, and
/// information exactly when it tells of progress or of a good end. Only prints are for
/// debugging; what is left warns.
pub proof fn levels_follow_what_happened(event: ProjectLogEvent)
    ensures
        event.urgency() is Error <==> ({
            ||| event matches ProjectLogEvent::PhaseStopped { outcome, .. } && outcome is Failed
            ||| event matches ProjectLogEvent::RunPlanFinalized { result, .. } && (result is NotSaved
                || result is SavedFinalizationFailed || result is OutcomeUnknown)
            ||| event matches ProjectLogEvent::TaskFinished { outcome, .. } && (outcome is Failed
                || outcome is NotCommittedAfterEarlierFailure)
            ||| event matches ProjectLogEvent::TranslationFinished { result } && result is Failed
            ||| event matches ProjectLogEvent::PublicationFinished { result } && (result is NotPublished
                || result is RecoveryRequired || result is OutcomeUnknown)
            ||| event matches ProjectLogEvent::RunFinished { result } && (result is Failed || result
                is RecoveryRequired || result is OutcomeUnknown)
            ||| event matches ProjectLogEvent::Diagnostic { occurrence } && (occurrence.about() is Run
                || occurrence.about() is RunPlan || occurrence.about() is Publication)
        }),
        event.urgency() is Info <==> ({
            ||| event is RunStarted
            ||| event is PhaseStarted
            ||| event is PhaseCompleted
            ||| event is RunPlanResolved
            ||| event is TaskStarted
            ||| event is RetrySummary
            ||| event is PublicationStarted
            ||| event is PerformanceCounters
            ||| event matches ProjectLogEvent::RunPlanFinalized { result, .. } && result is Saved
            ||| event matches ProjectLogEvent::TaskFinished { outcome, .. } && outcome is Complete
            ||| event matches ProjectLogEvent::TranslationFinished { result } && (result is NoWork
                || result is Complete)
            ||| event matches ProjectLogEvent::PublicationFinished { result } && result is Published
            ||| event matches ProjectLogEvent::RunFinished { result } && (result is Succeeded || result
                is Cancelled)
        }),
        event.urgency() is Debug <==> event is LuaPrint,
{
}

/// Only the start and the end of a phase, the start of a task, retries and prints may be
/// dropped under pressure; nothing that refers to a diagnostic may.
pub proof fn results_are_always_delivered(event: ProjectLogEvent)
    ensures
        event.droppable() <==> event is PhaseStarted || event is PhaseCompleted || event is TaskStarted
            || event is RetrySummary || event is LuaPrint,
        event.named() is Some ==> !event.droppable(),
{
}

/// Whether a summary of a translation is one of `engine`: generic projects have the generic
/// one, all others that of RPG Maker.
pub open spec fn is_summary_of(summary: TranslationEngineSummary, engine: ProjectLogEngine) -> bool {
    (summary is Generic) == (engine is Generic)
}

/// A translation tells its tasks unless it never started; its summary belongs to the engine
/// exactly when it is of the engine's kind, and only a failed or cancelled translation may
/// lack one.
pub proof fn translations_tell_their_tasks(result: TranslationFinished, engine: ProjectLogEngine)
    ensures
        result.counters() is None <==> result is NotStarted,
        result matches TranslationFinished::NoWork { tasks, summary } ==> result.counters() == Some(tasks)
            && result.summary_fits(engine) == is_summary_of(summary, engine),
        result matches TranslationFinished::Complete { tasks, summary } ==> result.counters() == Some(
            tasks,
        ) && result.summary_fits(engine) == is_summary_of(summary, engine),
        result matches TranslationFinished::Incomplete { tasks, summary } ==> result.counters() == Some(
            tasks,
        ) && result.summary_fits(engine) == is_summary_of(summary, engine),
        result matches TranslationFinished::Failed { tasks, summary, .. } ==> result.counters() == Some(
            tasks,
        ) && result.summary_fits(engine) == (summary matches Some(summary) ==> is_summary_of(
            summary,
            engine,
        )),
        result matches TranslationFinished::Cancelled { tasks, summary } ==> result.counters() == Some(
            tasks,
        ) && result.summary_fits(engine) == (summary matches Some(summary) ==> is_summary_of(
            summary,
            engine,
        )),
{
}

/// A publication's summary belongs to the engine exactly when it is of the engine's kind.
pub proof fn publications_tell_of_their_engine(summary: PublicationSummary, engine: ProjectLogEngine)
    ensures
        summary.fits(engine) == ((summary is Generic) == (engine is Generic)),
{
}

/// A plan belongs to the command of its own name.
pub proof fn plans_belong_to_their_command(plan: ResolvedRunPlan, command: ProjectLogCommand)
    ensures
        plan.fits(command) <==> ({
            ||| plan is Init && command is Init
            ||| plan is Extract && command is Extract
            ||| plan is Translate && command is Translate
        }),
        plan.origin() == (match plan {
            ResolvedRunPlan::Init { source, .. } => source,
            ResolvedRunPlan::Extract { source, .. } => source,
            ResolvedRunPlan::Translate { source, .. } => source,
        }),
{
}

/// A plan that was saved was committed, one that was not was rolled back or never begun,
/// and of an unknown outcome nothing else is claimed.
pub proof fn plan_results_agree_with_their_transaction(result: RunPlanFinalization)
    ensures
        result.consistent() <==> ({
            let transaction = match result {
                RunPlanFinalization::Saved { transaction, .. } => transaction,
                RunPlanFinalization::NotSaved { transaction, .. } => transaction,
                RunPlanFinalization::SavedFinalizationFailed { transaction, .. } => transaction,
                RunPlanFinalization::OutcomeUnknown { transaction, .. } => transaction,
            };
            match transaction {
                RunPlanTransactionState::Committed => result is Saved || result
                    is SavedFinalizationFailed,
                RunPlanTransactionState::NotStarted => result is NotSaved,
                RunPlanTransactionState::RolledBack => result is NotSaved,
                RunPlanTransactionState::OutcomeUnknown => result is OutcomeUnknown,
            }
        }),
{
}

/// A task is counted as it ended; one whose result was dropped after an earlier failure
/// counts as failed.
pub proof fn tasks_are_counted_as_they_ended(outcome: TaskFinishedOutcome)
    ensures
        outcome.counter() is Complete <==> outcome is Complete,
        outcome.counter() is Partial <==> outcome is Partial,
        outcome.counter() is Unavailable <==> outcome is Unavailable,
        outcome.counter() is Cancelled <==> outcome is Cancelled,
        outcome.counter() is Failed <==> outcome is Failed || outcome
            is NotCommittedAfterEarlierFailure,
{
}

/// Counters are accepted exactly when every started task ended in one way and every planned
/// task was started or not; then they are the given ones. Otherwise the sum that does not
/// fit, or the breakdown that is wrong, is told.
pub proof fn counters_are_accepted_when_they_add_up(counters: TranslationTaskCounters)
    ensures
        ({
            let ended = counters.complete + counters.partial + counters.unavailable + counters.failed
                + counters.cancelled;
            let accounted = counters.started + counters.not_started;
            &&& counters.checked() is Ok <==> counters.started == ended && counters.planned == accounted
            &&& counters.checked() matches Ok(kept) ==> kept == counters
            &&& counters.checked() matches Err(error) ==> {
                &&& error is Overflow ==> ended > u64::MAX || accounted > u64::MAX
                &&& error is StartedBreakdown ==> counters.started != ended
                &&& error is PlannedBreakdown ==> counters.started == ended && counters.planned
                    != accounted
            }
        }),
{
}

/// A payload holds the event's own values, each under its own name, so that the event can
/// be told from its code and its payload.
pub proof fn payloads_hold_the_values_of_the_event(
    payload: ProjectLogPayloadRef<'_>,
    event: ProjectLogEvent,
    rendered: RenderedDiagnostic,
)
    requires
        payload.is_of(event, rendered),
    ensures
        match event {
            ProjectLogEvent::RunStarted => payload is RunStarted,
            ProjectLogEvent::CancellationRequested { confirmed, total } => {
                &&& payload is CancellationRequested
                &&& payload->CancellationRequested_confirmed == confirmed
                &&& payload->CancellationRequested_total == total
            },
            ProjectLogEvent::PhaseStarted { phase, amount } => {
                &&& payload is PhaseProgress
                &&& payload->PhaseProgress_phase == phase
                &&& *payload->PhaseProgress_amount == amount
            },
            ProjectLogEvent::PhaseCompleted { phase, amount } => {
                &&& payload is PhaseProgress
                &&& payload->PhaseProgress_phase == phase
                &&& *payload->PhaseProgress_amount == amount
            },
            ProjectLogEvent::PhaseStopped { phase, outcome } => {
                &&& payload is PhaseStopped
                &&& payload->PhaseStopped_phase == phase
                &&& *payload->PhaseStopped_outcome == outcome
            },
            ProjectLogEvent::RunPlanResolved { plan } => {
                &&& payload is RunPlanResolved
                &&& *payload->RunPlanResolved_plan == plan
            },
            ProjectLogEvent::RunPlanFinalized { database, result } => {
                &&& payload is RunPlanFinalized
                &&& *payload->RunPlanFinalized_database == database
                &&& *payload->RunPlanFinalized_result == result
            },
            ProjectLogEvent::TaskStarted { task } => {
                &&& payload is TaskStarted
                &&& *payload->TaskStarted_task == task
            },
            ProjectLogEvent::TaskFinished { task, attempts, outcome } => {
                &&& payload is TaskFinished
                &&& *payload->TaskFinished_task == task
                &&& payload->TaskFinished_attempts == attempts
                &&& *payload->TaskFinished_outcome == outcome
            },
            ProjectLogEvent::TranslationFinished { result } => {
                &&& payload is TranslationFinished
                &&& *payload->TranslationFinished_result == result
            },
            ProjectLogEvent::RetrySummary { attempted, recovered, exhausted } => {
                &&& payload is RetrySummary
                &&& payload->RetrySummary_attempted == attempted
                &&& payload->RetrySummary_recovered == recovered
                &&& payload->RetrySummary_exhausted == exhausted
            },
            ProjectLogEvent::PublicationStarted { output_root } => {
                &&& payload is PublicationStarted
                &&& *payload->PublicationStarted_output_root == output_root
            },
            ProjectLogEvent::PublicationFinished { result } => {
                &&& payload is PublicationFinished
                &&& *payload->PublicationFinished_result == result
            },
            ProjectLogEvent::LuaPrint { message } => {
                &&& payload is LuaPrint
                &&& *payload->LuaPrint_message == message
            },
            ProjectLogEvent::Diagnostic { .. } => {
                &&& payload is Diagnostic
                &&& payload->Diagnostic_object@ == crate::diagnostic::single_line(rendered.object@)
                &&& payload->Diagnostic_reason@ == crate::diagnostic::single_line(rendered.reason@)
                &&& payload->Diagnostic_help@ == crate::diagnostic::single_line(rendered.help@)
            },
            ProjectLogEvent::ProjectLogDegraded { health } => {
                &&& payload is ProjectLogDegraded
                &&& payload->ProjectLogDegraded_issues == health.failures@.len()
            },
            ProjectLogEvent::PerformanceCounters { snapshot } => {
                &&& payload is PerformanceCounters
                &&& *payload->PerformanceCounters_snapshot == snapshot
            },
            ProjectLogEvent::RunFinished { result } => {
                &&& payload is RunFinished
                &&& *payload->RunFinished_result == result
            },
        },
{
}

/// Two events with the same code and the same payload are the same event, but for
/// diagnostics, which are told in words, and a degraded log, which is told by a number.
pub proof fn events_can_be_read_back(
    payload: ProjectLogPayloadRef<'_>,
    left: ProjectLogEvent,
    right: ProjectLogEvent,
    rendered: RenderedDiagnostic,
)
    requires
        payload.is_of(left, rendered),
        payload.is_of(right, rendered),
        left.kind() == right.kind(),
        !(left is Diagnostic),
        !(left is ProjectLogDegraded),
    ensures
        left == right,
{
    payloads_hold_the_values_of_the_event(payload, left, rendered);
    payloads_hold_the_values_of_the_event(payload, right, rendered);
}

/// A message names the command of the run and shows the event's own values.
pub proof fn messages_show_the_values_of_the_event(
    event: ProjectLogEvent,
    command: ProjectLogCommand,
    message: UiMessage,
)
    requires
        event.is_described_by(command, message),
    ensures
        match event {
            ProjectLogEvent::RunStarted => message is LogRunStarted && message->LogRunStarted_command
                == command.name(),
            ProjectLogEvent::RunFinished { result } => match result {
                RunFinished::Succeeded => message is LogRunSucceeded
                    && message->LogRunSucceeded_command == command.name(),
                RunFinished::Cancelled => message is LogRunCancelled
                    && message->LogRunCancelled_command == command.name(),
                RunFinished::Failed { .. } => message is LogRunFailed && message->LogRunFailed_command
                    == command.name(),
                RunFinished::RecoveryRequired { .. } => message is LogRunRecoveryRequired
                    && message->LogRunRecoveryRequired_command == command.name(),
                RunFinished::OutcomeUnknown { .. } => message is LogRunOutcomeUnknown
                    && message->LogRunOutcomeUnknown_command == command.name(),
            },
            ProjectLogEvent::RunPlanResolved { plan } => message is LogPlanResolved
                && message->LogPlanResolved_command == command.name() && message->LogPlanResolved_source
                == plan.origin().name(),
            ProjectLogEvent::PhaseStarted { phase, .. } => message is LogPhaseStarted
                && message->LogPhaseStarted_phase == phase.name(),
            ProjectLogEvent::PhaseCompleted { phase, .. } => message is LogPhaseCompleted
                && message->LogPhaseCompleted_phase == phase.name(),
            ProjectLogEvent::PhaseStopped { phase, outcome } => {
                &&& message is LogPhaseStopped
                &&& message->LogPhaseStopped_phase == phase.name()
                &&& outcome is Failed ==> message->LogPhaseStopped_outcome == "failed"
                &&& outcome is Cancelled ==> message->LogPhaseStopped_outcome == "cancelled"
            },
            ProjectLogEvent::CancellationRequested { confirmed, total } => match total {
                Some(total) => message is LogCancellationRequested
                    && message->LogCancellationRequested_confirmed == confirmed
                    && message->LogCancellationRequested_total == total,
                None => message is LogCancellationRequestedIndeterminate
                    && message->LogCancellationRequestedIndeterminate_confirmed == confirmed,
            },
            ProjectLogEvent::RunPlanFinalized { result, .. } => message is LogRunPlanFinalized
                && message->LogRunPlanFinalized_result == result.result_name(),
            ProjectLogEvent::RetrySummary { attempted, .. } => message is LogRetrySummary
                && message->LogRetrySummary_count == attempted,
            ProjectLogEvent::TaskStarted { task } => message is LogTranslationTaskStarted
                && message->LogTranslationTaskStarted_index == task.number()
                && message->LogTranslationTaskStarted_total == task.count(),
            ProjectLogEvent::TaskFinished { task, outcome, .. } => message is LogTranslationTaskFinished
                && message->LogTranslationTaskFinished_index == task.number()
                && message->LogTranslationTaskFinished_outcome == outcome.name(),
            ProjectLogEvent::TranslationFinished { result } => message is LogTranslationFinished
                && message->LogTranslationFinished_result == result.result_name(),
            ProjectLogEvent::PublicationStarted { output_root } => message is LogPublicationStarted
                && message->LogPublicationStarted_path == output_root,
            ProjectLogEvent::PublicationFinished { result } => message is LogPublicationFinished
                && message->LogPublicationFinished_result == result.result_name(),
            ProjectLogEvent::ProjectLogDegraded { health } => message is LogProjectLogDegraded && (
            health.failures@.len() <= u64::MAX ==> message->LogProjectLogDegraded_failure_kinds
                == health.failures@.len()),
            ProjectLogEvent::LuaPrint { message: printed } => message is LogLuaPrint
                && message->LogLuaPrint_message@ == printed@,
            ProjectLogEvent::PerformanceCounters { snapshot } => {
                let counts = snapshot.sqlite_transactions;
                let sum = counts.read_snapshot.begin.attempted + counts.read_snapshot.commit.attempted
                    + counts.read_snapshot.rollback.attempted + counts.write_plan.begin.attempted
                    + counts.write_plan.commit.attempted + counts.write_plan.rollback.attempted
                    + counts.database_initialization.begin.attempted
                    + counts.database_initialization.commit.attempted
                    + counts.database_initialization.rollback.attempted
                    + counts.interactive.begin.attempted + counts.interactive.commit.attempted
                    + counts.interactive.rollback.attempted;
                &&& message is LogPerformanceCounters
                &&& sum <= u64::MAX ==> message->sqlite_control_attempted_total == sum
                &&& sum > u64::MAX ==> message->sqlite_control_attempted_total == u64::MAX
                &&& message->candidate_validation_started == snapshot.candidate_validations.started
                &&& message->candidate_validation_completed == snapshot.candidate_validations.completed
            },
            ProjectLogEvent::Diagnostic { .. } => message is LogDiagnostic,
        },
{
}

/// The words of a diagnostic are its object, its reason and its help, in this order.
pub proof fn diagnostics_are_told_in_order(rendered: RenderedDiagnostic)
    ensures
        ({
            let words = log_payload::diagnostic_words(rendered);
            let object = rendered.object@.len() as int;
            let reason = rendered.reason@.len() as int;
            &&& words.len() == object + 2 + reason + 1 + rendered.help@.len()
            &&& words.subrange(0, object) == rendered.object@
            &&& words.subrange(object, object + 2) == ": "@
            &&& words.subrange(object + 2, object + 2 + reason) == rendered.reason@
            &&& words.subrange(object + 2 + reason, object + 3 + reason) == " "@
            &&& words.subrange(object + 3 + reason, words.len() as int) == rendered.help@
        }),
{
    reveal_strlit(": ");
    reveal_strlit(" ");
    let words = log_payload::diagnostic_words(rendered);
    let object = rendered.object@.len() as int;
    let reason = rendered.reason@.len() as int;
    assert(words.subrange(0, object) =~= rendered.object@);
    assert(words.subrange(object, object + 2) =~= ": "@);
    assert(words.subrange(object + 2, object + 2 + reason) =~= rendered.reason@);
    assert(words.subrange(object + 2 + reason, object + 3 + reason) =~= " "@);
    assert(words.subrange(object + 3 + reason, words.len() as int) =~= rendered.help@);
}

/// A plan to translate holds what it was made of: where it comes from, the profile, and the
/// two paths, each in its own place.
pub proof fn plans_hold_what_they_were_made_of(
    plan: ResolvedRunPlan,
    from: RunPlanValueSource,
    profile: Seq<char>,
    terms: Option<&str>,
    marks: Option<&str>,
)
    requires
        plan.is_translation(from, profile, terms, marks),
    ensures
        plan matches ResolvedRunPlan::Translate {
            source,
            profile: held,
            terminology,
            placeholders,
        } && ({
            &&& source == from
            &&& held@ == profile
            &&& terminology is Some <==> terms is Some
            &&& placeholders is Some <==> marks is Some
            &&& terms matches Some(path) ==> terminology->0@ == crate::diagnostic::safe_path(path@)
            &&& marks matches Some(path) ==> placeholders->0@ == crate::diagnostic::safe_path(path@)
        }),
{
}

/// A diagnostic's scope says under which code it stands, and how urgent it is.
pub proof fn scopes_say_how_urgent_they_are(scope: DiagnosticScope)
    ensures
        scope.event_level() is Error <==> scope is Run || scope is RunPlan || scope is Publication,
        scope.event_level() is Warn <==> !(scope.event_level() is Error),
        scope is Run <==> scope.event_code() is RunDiagnostic,
        scope is RunPlan <==> scope.event_code() is RunPlanDiagnostic,
        scope is TranslationTask <==> scope.event_code() is TranslationTaskDiagnostic,
        scope is Extract <==> scope.event_code() is ExtractDiagnostic,
        scope is WriteBack <==> scope.event_code() is WriteBackDiagnostic,
        scope is Publication <==> scope.event_code() is PublicationDiagnostic,
        scope is TaskRecord <==> scope.event_code() is TaskRecordDiagnostic,
        scope is ProjectLog <==> scope.event_code() is ProjectLogDiagnostic,
{
}

} // verus!
