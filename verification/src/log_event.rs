//! Typed events of the project log.
//!
//! An event alone decides its code, its level and how it is delivered; no producer can
//! choose them.

use vstd::prelude::*;
use vstd::string::*;
use crate::diagnostic;
use crate::diagnostic::{
    DiagnosticReport, ObservabilityEventCode, ObservabilityFailureCount,
    ObservabilityProjectLogPhase, SafeIdentifier, SafeIoKind, SafePath, SafeText, StateEffect,
};
use crate::performance::RunPerformanceSnapshot;

verus! {

/// How urgent an event is.
#[derive(Clone, Copy, Debug, PartialEq, Eq, Structural)]
pub enum ProjectLogLevel {
    Error,
    Warn,
    Info,
    Debug,
}

/// Whether an event may be dropped under pressure.
#[derive(Clone, Copy, Debug, PartialEq, Eq, Structural)]
pub enum ProjectLogDelivery {
    Required,
    BestEffort,
}

/// The kind of an event.
#[derive(Clone, Copy, Debug, PartialEq, Eq, Structural)]
pub enum ProjectLogCode {
    RunStarted,
    CancellationRequested,
    PhaseStarted,
    PhaseCompleted,
    PhaseStopped,
    RunPlanResolved,
    RunPlanFinalized,
    TaskStarted,
    TaskFinished,
    TranslationFinished,
    RetrySummary,
    PublicationStarted,
    PublicationFinished,
    LuaPrint,
    RunDiagnostic,
    RunPlanDiagnostic,
    TranslationTaskDiagnostic,
    ExtractDiagnostic,
    WriteBackDiagnostic,
    PublicationDiagnostic,
    TaskRecordDiagnostic,
    ProjectLogDiagnostic,
    ProjectLogDegraded,
    PerformanceCounters,
    RunFinished,
}

impl ProjectLogCode {
    pub open spec fn name(self) -> &'static str {
        match self {
            Self::RunStarted => "run.started",
            Self::CancellationRequested => "run.cancel_requested",
            Self::PhaseStarted => "phase.started",
            Self::PhaseCompleted => "phase.completed",
            Self::PhaseStopped => "phase.stopped",
            Self::RunPlanResolved => "run_plan.resolved",
            Self::RunPlanFinalized => "run_plan.finalized",
            Self::TaskStarted => "task.started",
            Self::TaskFinished => "task.finished",
            Self::TranslationFinished => "translation.finished",
            Self::RetrySummary => "retry.summary",
            Self::PublicationStarted => "publication.started",
            Self::PublicationFinished => "publication.finished",
            Self::LuaPrint => "lua.print",
            Self::RunDiagnostic => "diagnostic.run",
            Self::RunPlanDiagnostic => "diagnostic.run_plan",
            Self::TranslationTaskDiagnostic => "diagnostic.translation_task",
            Self::ExtractDiagnostic => "diagnostic.extract",
            Self::WriteBackDiagnostic => "diagnostic.write_back",
            Self::PublicationDiagnostic => "diagnostic.publication",
            Self::TaskRecordDiagnostic => "diagnostic.task_record",
            Self::ProjectLogDiagnostic => "diagnostic.project_log",
            Self::ProjectLogDegraded => "observability.project_log_degraded",
            Self::PerformanceCounters => "performance.counters",
            Self::RunFinished => "run.finished",
        }
    }

    /// Its stable name.
    pub fn as_str(self) -> (name: &'static str)
        ensures
            name == self.name(),
    {
        match self {
            Self::RunStarted => "run.started",
            Self::CancellationRequested => "run.cancel_requested",
            Self::PhaseStarted => "phase.started",
            Self::PhaseCompleted => "phase.completed",
            Self::PhaseStopped => "phase.stopped",
            Self::RunPlanResolved => "run_plan.resolved",
            Self::RunPlanFinalized => "run_plan.finalized",
            Self::TaskStarted => "task.started",
            Self::TaskFinished => "task.finished",
            Self::TranslationFinished => "translation.finished",
            Self::RetrySummary => "retry.summary",
            Self::PublicationStarted => "publication.started",
            Self::PublicationFinished => "publication.finished",
            Self::LuaPrint => "lua.print",
            Self::RunDiagnostic => "diagnostic.run",
            Self::RunPlanDiagnostic => "diagnostic.run_plan",
            Self::TranslationTaskDiagnostic => "diagnostic.translation_task",
            Self::ExtractDiagnostic => "diagnostic.extract",
            Self::WriteBackDiagnostic => "diagnostic.write_back",
            Self::PublicationDiagnostic => "diagnostic.publication",
            Self::TaskRecordDiagnostic => "diagnostic.task_record",
            Self::ProjectLogDiagnostic => "diagnostic.project_log",
            Self::ProjectLogDegraded => "observability.project_log_degraded",
            Self::PerformanceCounters => "performance.counters",
            Self::RunFinished => "run.finished",
        }
    }
}

impl ProjectLogCode {
    pub open spec fn position(self) -> int {
        match self {
            Self::RunStarted => 0,
            Self::CancellationRequested => 1,
            Self::PhaseStarted => 2,
            Self::PhaseCompleted => 3,
            Self::PhaseStopped => 4,
            Self::RunPlanResolved => 5,
            Self::RunPlanFinalized => 6,
            Self::TaskStarted => 7,
            Self::TaskFinished => 8,
            Self::TranslationFinished => 9,
            Self::RetrySummary => 10,
            Self::PublicationStarted => 11,
            Self::PublicationFinished => 12,
            Self::LuaPrint => 13,
            Self::RunDiagnostic => 14,
            Self::RunPlanDiagnostic => 15,
            Self::TranslationTaskDiagnostic => 16,
            Self::ExtractDiagnostic => 17,
            Self::WriteBackDiagnostic => 18,
            Self::PublicationDiagnostic => 19,
            Self::TaskRecordDiagnostic => 20,
            Self::ProjectLogDiagnostic => 21,
            Self::ProjectLogDegraded => 22,
            Self::PerformanceCounters => 23,
            Self::RunFinished => 24,
        }
    }

    /// The code's place in the order of codes.
    pub fn index(self) -> (index: i64)
        ensures
            index == self.position(),
    {
        match self {
            Self::RunStarted => 0,
            Self::CancellationRequested => 1,
            Self::PhaseStarted => 2,
            Self::PhaseCompleted => 3,
            Self::PhaseStopped => 4,
            Self::RunPlanResolved => 5,
            Self::RunPlanFinalized => 6,
            Self::TaskStarted => 7,
            Self::TaskFinished => 8,
            Self::TranslationFinished => 9,
            Self::RetrySummary => 10,
            Self::PublicationStarted => 11,
            Self::PublicationFinished => 12,
            Self::LuaPrint => 13,
            Self::RunDiagnostic => 14,
            Self::RunPlanDiagnostic => 15,
            Self::TranslationTaskDiagnostic => 16,
            Self::ExtractDiagnostic => 17,
            Self::WriteBackDiagnostic => 18,
            Self::PublicationDiagnostic => 19,
            Self::TaskRecordDiagnostic => 20,
            Self::ProjectLogDiagnostic => 21,
            Self::ProjectLogDegraded => 22,
            Self::PerformanceCounters => 23,
            Self::RunFinished => 24,
        }
    }
}

impl vstd::std_specs::convert::FromSpecImpl<ProjectLogCode> for ObservabilityEventCode {
    open spec fn obeys_from_spec() -> bool {
        true
    }

    open spec fn from_spec(value: ProjectLogCode) -> Self {
        match value {
            ProjectLogCode::RunStarted => ObservabilityEventCode::RunStarted,
            ProjectLogCode::CancellationRequested => ObservabilityEventCode::CancellationRequested,
            ProjectLogCode::PhaseStarted => ObservabilityEventCode::PhaseStarted,
            ProjectLogCode::PhaseCompleted => ObservabilityEventCode::PhaseCompleted,
            ProjectLogCode::PhaseStopped => ObservabilityEventCode::PhaseStopped,
            ProjectLogCode::RunPlanResolved => ObservabilityEventCode::RunPlanResolved,
            ProjectLogCode::RunPlanFinalized => ObservabilityEventCode::RunPlanFinalized,
            ProjectLogCode::TaskStarted => ObservabilityEventCode::TaskStarted,
            ProjectLogCode::TaskFinished => ObservabilityEventCode::TaskFinished,
            ProjectLogCode::TranslationFinished => ObservabilityEventCode::TranslationFinished,
            ProjectLogCode::RetrySummary => ObservabilityEventCode::RetrySummary,
            ProjectLogCode::PublicationStarted => ObservabilityEventCode::PublicationStarted,
            ProjectLogCode::PublicationFinished => ObservabilityEventCode::PublicationFinished,
            ProjectLogCode::LuaPrint => ObservabilityEventCode::LuaPrint,
            ProjectLogCode::RunDiagnostic => ObservabilityEventCode::RunDiagnostic,
            ProjectLogCode::RunPlanDiagnostic => ObservabilityEventCode::RunPlanDiagnostic,
            ProjectLogCode::TranslationTaskDiagnostic => ObservabilityEventCode::TranslationTaskDiagnostic,
            ProjectLogCode::ExtractDiagnostic => ObservabilityEventCode::ExtractDiagnostic,
            ProjectLogCode::WriteBackDiagnostic => ObservabilityEventCode::WriteBackDiagnostic,
            ProjectLogCode::PublicationDiagnostic => ObservabilityEventCode::PublicationDiagnostic,
            ProjectLogCode::TaskRecordDiagnostic => ObservabilityEventCode::TaskRecordDiagnostic,
            ProjectLogCode::ProjectLogDiagnostic => ObservabilityEventCode::ProjectLogDiagnostic,
            ProjectLogCode::ProjectLogDegraded => ObservabilityEventCode::ProjectLogDegraded,
            ProjectLogCode::PerformanceCounters => ObservabilityEventCode::PerformanceCounters,
            ProjectLogCode::RunFinished => ObservabilityEventCode::RunFinished,
        }
    }
}

impl From<ProjectLogCode> for ObservabilityEventCode {
    fn from(value: ProjectLogCode) -> (result: Self) {
        match value {
            ProjectLogCode::RunStarted => ObservabilityEventCode::RunStarted,
            ProjectLogCode::CancellationRequested => ObservabilityEventCode::CancellationRequested,
            ProjectLogCode::PhaseStarted => ObservabilityEventCode::PhaseStarted,
            ProjectLogCode::PhaseCompleted => ObservabilityEventCode::PhaseCompleted,
            ProjectLogCode::PhaseStopped => ObservabilityEventCode::PhaseStopped,
            ProjectLogCode::RunPlanResolved => ObservabilityEventCode::RunPlanResolved,
            ProjectLogCode::RunPlanFinalized => ObservabilityEventCode::RunPlanFinalized,
            ProjectLogCode::TaskStarted => ObservabilityEventCode::TaskStarted,
            ProjectLogCode::TaskFinished => ObservabilityEventCode::TaskFinished,
            ProjectLogCode::TranslationFinished => ObservabilityEventCode::TranslationFinished,
            ProjectLogCode::RetrySummary => ObservabilityEventCode::RetrySummary,
            ProjectLogCode::PublicationStarted => ObservabilityEventCode::PublicationStarted,
            ProjectLogCode::PublicationFinished => ObservabilityEventCode::PublicationFinished,
            ProjectLogCode::LuaPrint => ObservabilityEventCode::LuaPrint,
            ProjectLogCode::RunDiagnostic => ObservabilityEventCode::RunDiagnostic,
            ProjectLogCode::RunPlanDiagnostic => ObservabilityEventCode::RunPlanDiagnostic,
            ProjectLogCode::TranslationTaskDiagnostic => ObservabilityEventCode::TranslationTaskDiagnostic,
            ProjectLogCode::ExtractDiagnostic => ObservabilityEventCode::ExtractDiagnostic,
            ProjectLogCode::WriteBackDiagnostic => ObservabilityEventCode::WriteBackDiagnostic,
            ProjectLogCode::PublicationDiagnostic => ObservabilityEventCode::PublicationDiagnostic,
            ProjectLogCode::TaskRecordDiagnostic => ObservabilityEventCode::TaskRecordDiagnostic,
            ProjectLogCode::ProjectLogDiagnostic => ObservabilityEventCode::ProjectLogDiagnostic,
            ProjectLogCode::ProjectLogDegraded => ObservabilityEventCode::ProjectLogDegraded,
            ProjectLogCode::PerformanceCounters => ObservabilityEventCode::PerformanceCounters,
            ProjectLogCode::RunFinished => ObservabilityEventCode::RunFinished,
        }
    }
}

/// The language of the user interface.
#[derive(Clone, Copy, Debug, PartialEq, Eq, Structural)]
pub enum UiLocale {
    Arabic,
    SimplifiedChinese,
    TraditionalChinese,
    English,
    French,
    Russian,
    Spanish,
    Japanese,
    Korean,
    Vietnamese,
}

/// The language of log messages.
#[derive(Clone, Copy, Debug, PartialEq, Eq, Structural)]
pub enum ProjectLogLocale {
    Arabic,
    SimplifiedChinese,
    TraditionalChinese,
    English,
    French,
    Russian,
    Spanish,
    Japanese,
    Korean,
    Vietnamese,
}

impl ProjectLogLocale {
    pub open spec fn ui(self) -> UiLocale {
        match self {
            Self::Arabic => UiLocale::Arabic,
            Self::SimplifiedChinese => UiLocale::SimplifiedChinese,
            Self::TraditionalChinese => UiLocale::TraditionalChinese,
            Self::English => UiLocale::English,
            Self::French => UiLocale::French,
            Self::Russian => UiLocale::Russian,
            Self::Spanish => UiLocale::Spanish,
            Self::Japanese => UiLocale::Japanese,
            Self::Korean => UiLocale::Korean,
            Self::Vietnamese => UiLocale::Vietnamese,
        }
    }

    pub fn ui_locale(self) -> (locale: UiLocale)
        ensures
            locale == self.ui(),
    {
        match self {
            Self::Arabic => UiLocale::Arabic,
            Self::SimplifiedChinese => UiLocale::SimplifiedChinese,
            Self::TraditionalChinese => UiLocale::TraditionalChinese,
            Self::English => UiLocale::English,
            Self::French => UiLocale::French,
            Self::Russian => UiLocale::Russian,
            Self::Spanish => UiLocale::Spanish,
            Self::Japanese => UiLocale::Japanese,
            Self::Korean => UiLocale::Korean,
            Self::Vietnamese => UiLocale::Vietnamese,
        }
    }
}

impl vstd::std_specs::convert::FromSpecImpl<UiLocale> for ProjectLogLocale {
    open spec fn obeys_from_spec() -> bool {
        true
    }

    open spec fn from_spec(value: UiLocale) -> Self {
        match value {
            UiLocale::Arabic => ProjectLogLocale::Arabic,
            UiLocale::SimplifiedChinese => ProjectLogLocale::SimplifiedChinese,
            UiLocale::TraditionalChinese => ProjectLogLocale::TraditionalChinese,
            UiLocale::English => ProjectLogLocale::English,
            UiLocale::French => ProjectLogLocale::French,
            UiLocale::Russian => ProjectLogLocale::Russian,
            UiLocale::Spanish => ProjectLogLocale::Spanish,
            UiLocale::Japanese => ProjectLogLocale::Japanese,
            UiLocale::Korean => ProjectLogLocale::Korean,
            UiLocale::Vietnamese => ProjectLogLocale::Vietnamese,
        }
    }
}

impl From<UiLocale> for ProjectLogLocale {
    fn from(value: UiLocale) -> (result: Self) {
        match value {
            UiLocale::Arabic => ProjectLogLocale::Arabic,
            UiLocale::SimplifiedChinese => ProjectLogLocale::SimplifiedChinese,
            UiLocale::TraditionalChinese => ProjectLogLocale::TraditionalChinese,
            UiLocale::English => ProjectLogLocale::English,
            UiLocale::French => ProjectLogLocale::French,
            UiLocale::Russian => ProjectLogLocale::Russian,
            UiLocale::Spanish => ProjectLogLocale::Spanish,
            UiLocale::Japanese => ProjectLogLocale::Japanese,
            UiLocale::Korean => ProjectLogLocale::Korean,
            UiLocale::Vietnamese => ProjectLogLocale::Vietnamese,
        }
    }
}

/// The engine of the project.
#[derive(Clone, Copy, Debug, PartialEq, Eq, Structural)]
pub enum ProjectLogEngine {
    Generic,
    RpgMakerMv,
    RpgMakerMz,
}

/// The command that runs.
#[derive(Clone, Copy, Debug, PartialEq, Eq, Structural)]
pub enum ProjectLogCommand {
    Init,
    Extract,
    Builtin,
    Rules,
    Translate,
    WriteBack,
    Lua,
}

impl ProjectLogCommand {
    pub open spec fn name(self) -> &'static str {
        match self {
            Self::Init => "init",
            Self::Extract => "extract",
            Self::Builtin => "builtin",
            Self::Rules => "rules",
            Self::Translate => "translate",
            Self::WriteBack => "write_back",
            Self::Lua => "lua",
        }
    }

    /// Its stable name.
    pub fn as_str(self) -> (name: &'static str)
        ensures
            name == self.name(),
    {
        match self {
            Self::Init => "init",
            Self::Extract => "extract",
            Self::Builtin => "builtin",
            Self::Rules => "rules",
            Self::Translate => "translate",
            Self::WriteBack => "write_back",
            Self::Lua => "lua",
        }
    }
}

/// What all events of one run share.
#[derive(Debug, PartialEq, Eq)]
pub struct ProjectLogContext {
    locale: ProjectLogLocale,
    engine: ProjectLogEngine,
    project: SafeIdentifier,
    command: ProjectLogCommand,
}

/// A project log identifier was empty.
#[derive(Clone, Copy, Debug, PartialEq, Eq, Structural)]
pub struct InvalidProjectLogIdentifier;

impl InvalidProjectLogIdentifier {
    pub fn message(&self) -> (message: &'static str)
        ensures
            message == "项目日志标识符不能为空",
    {
        "项目日志标识符不能为空"
    }
}

impl ProjectLogContext {
    pub closed spec fn in_locale(&self) -> ProjectLogLocale {
        self.locale
    }

    pub closed spec fn for_engine(&self) -> ProjectLogEngine {
        self.engine
    }

    pub closed spec fn for_project(&self) -> Seq<char> {
        self.project@
    }

    pub closed spec fn for_command(&self) -> ProjectLogCommand {
        self.command
    }

    /// The context of a run; the project must have a name.
    pub fn new(
        locale: UiLocale,
        engine: ProjectLogEngine,
        project: &str,
        command: ProjectLogCommand,
    ) -> (result: Result<Self, InvalidProjectLogIdentifier>)
        ensures
            match result {
                Ok(context) => {
                    &&& project@.len() > 0
                    &&& context.in_locale().ui() == locale
                    &&& context.for_engine() == engine
                    &&& context.for_project() == project@
                    &&& context.for_command() == command
                },
                Err(_) => project@.len() == 0,
            },
    {
        match SafeIdentifier::new(project) {
            Ok(project) => Ok(
                ProjectLogContext { locale: ProjectLogLocale::from(locale), engine, project, command },
            ),
            Err(_) => Err(InvalidProjectLogIdentifier),
        }
    }

    pub fn locale(&self) -> (locale: ProjectLogLocale)
        ensures
            locale == self.in_locale(),
    {
        self.locale
    }

    pub fn engine(&self) -> (engine: ProjectLogEngine)
        ensures
            engine == self.for_engine(),
    {
        self.engine
    }

    pub fn project(&self) -> (project: &str)
        ensures
            project@ == self.for_project(),
    {
        self.project.as_str()
    }

    pub fn command(&self) -> (command: ProjectLogCommand)
        ensures
            command == self.for_command(),
    {
        self.command
    }
}

impl Clone for ProjectLogContext {
    fn clone(&self) -> (copy: Self)
        ensures
            copy == *self,
    {
        ProjectLogContext {
            locale: self.locale,
            engine: self.engine,
            project: self.project.clone(),
            command: self.command,
        }
    }
}

/// A phase of a run.
#[derive(Clone, Copy, Debug, PartialEq, Eq, Structural)]
pub enum ProjectLogPhase {
    CheckProject,
    ScanSource,
    PrepareCandidate,
    UpdateDatabase,
    Publish,
    Builtin,
    BuiltinDocuments,
    BuiltinWorkUnits,
    BuiltinCommit,
    Rules,
    RulesDocuments,
    RulesMatches,
    RulesCommit,
    Lua,
    Planning,
    ConfirmedTasks,
    ReadAssets,
    PlanRpgMakerWriteBack,
    RewriteDocuments,
    ValidateCandidate,
}

impl ProjectLogPhase {
    pub open spec fn name(self) -> &'static str {
        match self {
            Self::CheckProject => "check_project",
            Self::ScanSource => "scan_source",
            Self::PrepareCandidate => "prepare_candidate",
            Self::UpdateDatabase => "update_database",
            Self::Publish => "publish",
            Self::Builtin => "builtin",
            Self::BuiltinDocuments => "builtin_documents",
            Self::BuiltinWorkUnits => "builtin_work_units",
            Self::BuiltinCommit => "builtin_commit",
            Self::Rules => "rules",
            Self::RulesDocuments => "rules_documents",
            Self::RulesMatches => "rules_matches",
            Self::RulesCommit => "rules_commit",
            Self::Lua => "lua",
            Self::Planning => "planning",
            Self::ConfirmedTasks => "confirmed_tasks",
            Self::ReadAssets => "read_assets",
            Self::PlanRpgMakerWriteBack => "plan_rpg_maker_write_back",
            Self::RewriteDocuments => "rewrite_documents",
            Self::ValidateCandidate => "validate_candidate",
        }
    }

    /// Its stable name.
    pub fn as_str(self) -> (name: &'static str)
        ensures
            name == self.name(),
    {
        match self {
            Self::CheckProject => "check_project",
            Self::ScanSource => "scan_source",
            Self::PrepareCandidate => "prepare_candidate",
            Self::UpdateDatabase => "update_database",
            Self::Publish => "publish",
            Self::Builtin => "builtin",
            Self::BuiltinDocuments => "builtin_documents",
            Self::BuiltinWorkUnits => "builtin_work_units",
            Self::BuiltinCommit => "builtin_commit",
            Self::Rules => "rules",
            Self::RulesDocuments => "rules_documents",
            Self::RulesMatches => "rules_matches",
            Self::RulesCommit => "rules_commit",
            Self::Lua => "lua",
            Self::Planning => "planning",
            Self::ConfirmedTasks => "confirmed_tasks",
            Self::ReadAssets => "read_assets",
            Self::PlanRpgMakerWriteBack => "plan_rpg_maker_write_back",
            Self::RewriteDocuments => "rewrite_documents",
            Self::ValidateCandidate => "validate_candidate",
        }
    }
}

impl ProjectLogPhase {
    pub open spec fn position(self) -> int {
        match self {
            Self::CheckProject => 0,
            Self::ScanSource => 1,
            Self::PrepareCandidate => 2,
            Self::UpdateDatabase => 3,
            Self::Publish => 4,
            Self::Builtin => 5,
            Self::BuiltinDocuments => 6,
            Self::BuiltinWorkUnits => 7,
            Self::BuiltinCommit => 8,
            Self::Rules => 9,
            Self::RulesDocuments => 10,
            Self::RulesMatches => 11,
            Self::RulesCommit => 12,
            Self::Lua => 13,
            Self::Planning => 14,
            Self::ConfirmedTasks => 15,
            Self::ReadAssets => 16,
            Self::PlanRpgMakerWriteBack => 17,
            Self::RewriteDocuments => 18,
            Self::ValidateCandidate => 19,
        }
    }

    /// The phase's place in the order of phases.
    pub fn index(self) -> (index: u64)
        ensures
            index == self.position(),
    {
        match self {
            Self::CheckProject => 0,
            Self::ScanSource => 1,
            Self::PrepareCandidate => 2,
            Self::UpdateDatabase => 3,
            Self::Publish => 4,
            Self::Builtin => 5,
            Self::BuiltinDocuments => 6,
            Self::BuiltinWorkUnits => 7,
            Self::BuiltinCommit => 8,
            Self::Rules => 9,
            Self::RulesDocuments => 10,
            Self::RulesMatches => 11,
            Self::RulesCommit => 12,
            Self::Lua => 13,
            Self::Planning => 14,
            Self::ConfirmedTasks => 15,
            Self::ReadAssets => 16,
            Self::PlanRpgMakerWriteBack => 17,
            Self::RewriteDocuments => 18,
            Self::ValidateCandidate => 19,
        }
    }
}

impl vstd::std_specs::convert::FromSpecImpl<ProjectLogPhase> for ObservabilityProjectLogPhase {
    open spec fn obeys_from_spec() -> bool {
        true
    }

    open spec fn from_spec(value: ProjectLogPhase) -> Self {
        match value {
            ProjectLogPhase::CheckProject => ObservabilityProjectLogPhase::CheckProject,
            ProjectLogPhase::ScanSource => ObservabilityProjectLogPhase::ScanSource,
            ProjectLogPhase::PrepareCandidate => ObservabilityProjectLogPhase::PrepareCandidate,
            ProjectLogPhase::UpdateDatabase => ObservabilityProjectLogPhase::UpdateDatabase,
            ProjectLogPhase::Publish => ObservabilityProjectLogPhase::Publish,
            ProjectLogPhase::Builtin => ObservabilityProjectLogPhase::Builtin,
            ProjectLogPhase::BuiltinDocuments => ObservabilityProjectLogPhase::BuiltinDocuments,
            ProjectLogPhase::BuiltinWorkUnits => ObservabilityProjectLogPhase::BuiltinWorkUnits,
            ProjectLogPhase::BuiltinCommit => ObservabilityProjectLogPhase::BuiltinCommit,
            ProjectLogPhase::Rules => ObservabilityProjectLogPhase::Rules,
            ProjectLogPhase::RulesDocuments => ObservabilityProjectLogPhase::RulesDocuments,
            ProjectLogPhase::RulesMatches => ObservabilityProjectLogPhase::RulesMatches,
            ProjectLogPhase::RulesCommit => ObservabilityProjectLogPhase::RulesCommit,
            ProjectLogPhase::Lua => ObservabilityProjectLogPhase::Lua,
            ProjectLogPhase::Planning => ObservabilityProjectLogPhase::Planning,
            ProjectLogPhase::ConfirmedTasks => ObservabilityProjectLogPhase::ConfirmedTasks,
            ProjectLogPhase::ReadAssets => ObservabilityProjectLogPhase::ReadAssets,
            ProjectLogPhase::PlanRpgMakerWriteBack => ObservabilityProjectLogPhase::PlanRpgMakerWriteBack,
            ProjectLogPhase::RewriteDocuments => ObservabilityProjectLogPhase::RewriteDocuments,
            ProjectLogPhase::ValidateCandidate => ObservabilityProjectLogPhase::ValidateCandidate,
        }
    }
}

impl From<ProjectLogPhase> for ObservabilityProjectLogPhase {
    fn from(value: ProjectLogPhase) -> (result: Self) {
        match value {
            ProjectLogPhase::CheckProject => ObservabilityProjectLogPhase::CheckProject,
            ProjectLogPhase::ScanSource => ObservabilityProjectLogPhase::ScanSource,
            ProjectLogPhase::PrepareCandidate => ObservabilityProjectLogPhase::PrepareCandidate,
            ProjectLogPhase::UpdateDatabase => ObservabilityProjectLogPhase::UpdateDatabase,
            ProjectLogPhase::Publish => ObservabilityProjectLogPhase::Publish,
            ProjectLogPhase::Builtin => ObservabilityProjectLogPhase::Builtin,
            ProjectLogPhase::BuiltinDocuments => ObservabilityProjectLogPhase::BuiltinDocuments,
            ProjectLogPhase::BuiltinWorkUnits => ObservabilityProjectLogPhase::BuiltinWorkUnits,
            ProjectLogPhase::BuiltinCommit => ObservabilityProjectLogPhase::BuiltinCommit,
            ProjectLogPhase::Rules => ObservabilityProjectLogPhase::Rules,
            ProjectLogPhase::RulesDocuments => ObservabilityProjectLogPhase::RulesDocuments,
            ProjectLogPhase::RulesMatches => ObservabilityProjectLogPhase::RulesMatches,
            ProjectLogPhase::RulesCommit => ObservabilityProjectLogPhase::RulesCommit,
            ProjectLogPhase::Lua => ObservabilityProjectLogPhase::Lua,
            ProjectLogPhase::Planning => ObservabilityProjectLogPhase::Planning,
            ProjectLogPhase::ConfirmedTasks => ObservabilityProjectLogPhase::ConfirmedTasks,
            ProjectLogPhase::ReadAssets => ObservabilityProjectLogPhase::ReadAssets,
            ProjectLogPhase::PlanRpgMakerWriteBack => ObservabilityProjectLogPhase::PlanRpgMakerWriteBack,
            ProjectLogPhase::RewriteDocuments => ObservabilityProjectLogPhase::RewriteDocuments,
            ProjectLogPhase::ValidateCandidate => ObservabilityProjectLogPhase::ValidateCandidate,
        }
    }
}

/// How much of a phase is done.
#[derive(Clone, Copy, Debug, PartialEq, Eq, Structural)]
pub enum ProjectLogAmount {
    Indeterminate,
    Determinate { completed: u64, total: u64 },
}

/// The number of a recorded diagnostic, unique in a run and never zero.
#[derive(Clone, Copy, Debug, PartialEq, Eq, Structural)]
pub struct DiagnosticOccurrenceId(u64);

/// No further diagnostic can be numbered.
#[derive(Clone, Copy, Debug, PartialEq, Eq, Structural)]
pub struct OccurrenceIdExhausted;

impl OccurrenceIdExhausted {
    pub fn message(&self) -> (message: &'static str)
        ensures
            message == "诊断 occurrence ID 已耗尽",
    {
        "诊断 occurrence ID 已耗尽"
    }
}

impl DiagnosticOccurrenceId {
    #[verifier::type_invariant]
    spec fn is_valid(self) -> bool {
        self.0 != 0
    }

    pub closed spec fn number(self) -> u64 {
        self.0
    }

    /// Occurrences with the same number are the same.
    pub proof fn lemma_number_identifies(self, other: Self)
        requires
            self.number() == other.number(),
        ensures
            self == other,
    {
    }

    pub fn get(self) -> (value: u64)
        ensures
            value == self.number(),
            value != 0,
    {
        proof {
            use_type_invariant(&self);
        }
        self.0
    }

    pub fn new(value: u64) -> (result: Result<Self, OccurrenceIdExhausted>)
        ensures
            match result {
                Ok(id) => value != 0 && id.number() == value,
                Err(_) => value == 0,
            },
    {
        if value == 0 {
            Err(OccurrenceIdExhausted)
        } else {
            Ok(DiagnosticOccurrenceId(value))
        }
    }
}

/// Why a phase stopped early.
#[derive(Clone, Copy, Debug, PartialEq, Eq, Structural)]
pub enum PhaseStopOutcome {
    Failed { diagnostic: DiagnosticOccurrenceId },
    Cancelled,
}

/// Where a run plan came from.
#[derive(Clone, Copy, Debug, PartialEq, Eq, Structural)]
pub enum RunPlanValueSource {
    Explicit,
    ProjectState,
    ProductDefault,
}

impl RunPlanValueSource {
    pub open spec fn name(self) -> &'static str {
        match self {
            Self::Explicit => "explicit",
            Self::ProjectState => "project_state",
            Self::ProductDefault => "product_default",
        }
    }

    /// Its stable name.
    pub fn as_str(self) -> (name: &'static str)
        ensures
            name == self.name(),
    {
        match self {
            Self::Explicit => "explicit",
            Self::ProjectState => "project_state",
            Self::ProductDefault => "product_default",
        }
    }
}

/// Who extracts in an RPG Maker project.
#[derive(Clone, Copy, Debug, PartialEq, Eq, Structural)]
pub struct ExtractOwnerSelection {
    pub builtin: bool,
    pub rules: bool,
}

impl ExtractOwnerSelection {
    pub fn new(builtin: bool, rules: bool) -> (selection: Self)
        ensures
            selection == (Self { builtin, rules }),
    {
        ExtractOwnerSelection { builtin, rules }
    }
}

/// What an extraction works on.
#[derive(Clone, Copy, Debug, PartialEq, Eq, Structural)]
pub enum ExtractRunPlanSelection {
    GenericJsonl,
    RpgMaker { owners: ExtractOwnerSelection },
}

/// The plan that a run follows.
#[derive(Debug, PartialEq, Eq)]
pub enum ResolvedRunPlan {
    Init { source: RunPlanValueSource, game_root: SafePath },
    Extract { source: RunPlanValueSource, selection: ExtractRunPlanSelection },
    Translate {
        source: RunPlanValueSource,
        profile: SafeIdentifier,
        terminology: Option<SafePath>,
        placeholders: Option<SafePath>,
    },
}

/// The diagnostic text of an optional path.
pub open spec fn optional_safe_path(path: Option<&str>) -> Option<Seq<char>> {
    match path {
        Some(path) => Some(diagnostic::safe_path(path@)),
        None => None,
    }
}

fn optional_path(path: Option<&str>) -> (safe: Option<SafePath>)
    ensures
        diagnostic::path_text(safe) == optional_safe_path(path),
{
    match path {
        Some(path) => Some(SafePath::new(path)),
        None => None,
    }
}

impl ResolvedRunPlan {
    pub open spec fn origin(&self) -> RunPlanValueSource {
        match self {
            Self::Init { source, .. } => *source,
            Self::Extract { source, .. } => *source,
            Self::Translate { source, .. } => *source,
        }
    }

    /// Whether the plan is one of `command`.
    pub open spec fn fits(&self, command: ProjectLogCommand) -> bool {
        match self {
            Self::Init { .. } => command == ProjectLogCommand::Init,
            Self::Extract { .. } => command == ProjectLogCommand::Extract,
            Self::Translate { .. } => command == ProjectLogCommand::Translate,
        }
    }

    pub fn is_for(&self, command: ProjectLogCommand) -> (result: bool)
        ensures
            result == self.fits(command),
    {
        match self {
            Self::Init { .. } => command == ProjectLogCommand::Init,
            Self::Extract { .. } => command == ProjectLogCommand::Extract,
            Self::Translate { .. } => command == ProjectLogCommand::Translate,
        }
    }

    pub fn source(&self) -> (source: RunPlanValueSource)
        ensures
            source == self.origin(),
    {
        match self {
            Self::Init { source, .. } => *source,
            Self::Extract { source, .. } => *source,
            Self::Translate { source, .. } => *source,
        }
    }

    pub fn init(source: RunPlanValueSource, game_root: &str) -> (plan: Self)
        ensures
            plan matches Self::Init { source: from, game_root: root } && from == source && root@
                == diagnostic::safe_path(game_root@),
    {
        Self::Init { source, game_root: SafePath::new(game_root) }
    }

    pub fn generic_extract(source: RunPlanValueSource) -> (plan: Self)
        ensures
            plan == (Self::Extract { source, selection: ExtractRunPlanSelection::GenericJsonl }),
    {
        Self::Extract { source, selection: ExtractRunPlanSelection::GenericJsonl }
    }

    pub fn rpg_maker_extract(source: RunPlanValueSource, owners: ExtractOwnerSelection) -> (plan:
        Self)
        ensures
            plan == (Self::Extract { source, selection: ExtractRunPlanSelection::RpgMaker { owners } }),
    {
        Self::Extract { source, selection: ExtractRunPlanSelection::RpgMaker { owners } }
    }

    /// A translation plan; the profile must have a name.
    pub fn translate(
        source: RunPlanValueSource,
        profile: &str,
        terminology: Option<&str>,
        placeholders: Option<&str>,
    ) -> (result: Result<Self, InvalidProjectLogIdentifier>)
        ensures
            match result {
                Ok(plan) => profile@.len() > 0 && plan.is_translation(
                    source,
                    profile@,
                    terminology,
                    placeholders,
                ),
                Err(_) => profile@.len() == 0,
            },
    {
        match SafeIdentifier::new(profile) {
            Ok(profile) => Ok(Self::translate_validated(source, profile, terminology, placeholders)),
            Err(_) => Err(InvalidProjectLogIdentifier),
        }
    }

    pub open spec fn is_translation(
        &self,
        from: RunPlanValueSource,
        named: Seq<char>,
        terms: Option<&str>,
        marks: Option<&str>,
    ) -> bool {
        self matches Self::Translate { source, profile, terminology, placeholders } && {
            &&& *source == from
            &&& profile@ == named
            &&& diagnostic::path_text(*terminology) == optional_safe_path(terms)
            &&& diagnostic::path_text(*placeholders) == optional_safe_path(marks)
        }
    }

    /// A translation plan with a profile that was checked before.
    pub fn translate_validated(
        source: RunPlanValueSource,
        profile: SafeIdentifier,
        terminology: Option<&str>,
        placeholders: Option<&str>,
    ) -> (plan: Self)
        ensures
            plan.is_translation(source, profile@, terminology, placeholders),
    {
        Self::Translate {
            source,
            profile,
            terminology: optional_path(terminology),
            placeholders: optional_path(placeholders),
        }
    }
}

/// How the transaction that saves a run plan ended.
#[derive(Clone, Copy, Debug, PartialEq, Eq, Structural)]
pub enum RunPlanTransactionState {
    NotStarted,
    RolledBack,
    Committed,
    OutcomeUnknown,
}

/// Whether the run plan was saved.
#[derive(Clone, Copy, Debug, PartialEq, Eq, Structural)]
pub enum RunPlanFinalization {
    Saved { transaction: RunPlanTransactionState, run_continues: bool },
    NotSaved {
        transaction: RunPlanTransactionState,
        run_continues: bool,
        diagnostic: DiagnosticOccurrenceId,
    },
    SavedFinalizationFailed {
        transaction: RunPlanTransactionState,
        run_continues: bool,
        diagnostic: DiagnosticOccurrenceId,
    },
    OutcomeUnknown {
        transaction: RunPlanTransactionState,
        run_continues: bool,
        diagnostic: DiagnosticOccurrenceId,
    },
}

impl RunPlanFinalization {
    pub open spec fn named(self) -> Option<DiagnosticOccurrenceId> {
        match self {
            Self::Saved { .. } => None,
            Self::NotSaved { diagnostic, .. } => Some(diagnostic),
            Self::SavedFinalizationFailed { diagnostic, .. } => Some(diagnostic),
            Self::OutcomeUnknown { diagnostic, .. } => Some(diagnostic),
        }
    }

    /// Whether the transaction ended as the finalization says.
    pub open spec fn consistent(self) -> bool {
        match self {
            Self::Saved { transaction, .. } => transaction == RunPlanTransactionState::Committed,
            Self::NotSaved { transaction, .. } => transaction == RunPlanTransactionState::NotStarted
                || transaction == RunPlanTransactionState::RolledBack,
            Self::SavedFinalizationFailed { transaction, .. } => transaction
                == RunPlanTransactionState::Committed,
            Self::OutcomeUnknown { transaction, .. } => transaction
                == RunPlanTransactionState::OutcomeUnknown,
        }
    }

    pub open spec fn result_name(self) -> &'static str {
        match self {
            Self::Saved { .. } => "saved",
            Self::NotSaved { .. } => "not_saved",
            Self::SavedFinalizationFailed { .. } => "saved_finalization_failed",
            Self::OutcomeUnknown { .. } => "outcome_unknown",
        }
    }

    pub fn diagnostic(self) -> (diagnostic: Option<DiagnosticOccurrenceId>)
        ensures
            diagnostic == self.named(),
    {
        match self {
            Self::Saved { .. } => None,
            Self::NotSaved { diagnostic, .. } => Some(diagnostic),
            Self::SavedFinalizationFailed { diagnostic, .. } => Some(diagnostic),
            Self::OutcomeUnknown { diagnostic, .. } => Some(diagnostic),
        }
    }

    pub fn is_consistent(self) -> (consistent: bool)
        ensures
            consistent == self.consistent(),
    {
        match self {
            Self::Saved { transaction, .. } => transaction == RunPlanTransactionState::Committed,
            Self::NotSaved { transaction, .. } => transaction == RunPlanTransactionState::NotStarted
                || transaction == RunPlanTransactionState::RolledBack,
            Self::SavedFinalizationFailed { transaction, .. } => transaction
                == RunPlanTransactionState::Committed,
            Self::OutcomeUnknown { transaction, .. } => transaction
                == RunPlanTransactionState::OutcomeUnknown,
        }
    }

    fn result_text(self) -> (name: &'static str)
        ensures
            name == self.result_name(),
    {
        match self {
            Self::Saved { .. } => "saved",
            Self::NotSaved { .. } => "not_saved",
            Self::SavedFinalizationFailed { .. } => "saved_finalization_failed",
            Self::OutcomeUnknown { .. } => "outcome_unknown",
        }
    }
}

/// A task's number and how many there are.
#[derive(Clone, Copy, Debug, PartialEq, Eq, Structural)]
pub struct TaskPosition {
    ordinal: u64,
    total: u64,
}

/// A task number outside of `1..=total`.
#[derive(Clone, Copy, Debug, PartialEq, Eq, Structural)]
pub struct InvalidTaskPosition;

impl InvalidTaskPosition {
    pub fn message(&self) -> (message: &'static str)
        ensures
            message == "任务序号必须处于 1..=total",
    {
        "任务序号必须处于 1..=total"
    }
}

impl TaskPosition {
    #[verifier::type_invariant]
    spec fn is_valid(self) -> bool {
        1 <= self.ordinal <= self.total
    }

    pub closed spec fn number(self) -> u64 {
        self.ordinal
    }

    pub closed spec fn count(self) -> u64 {
        self.total
    }

    pub fn new(ordinal: u64, total: u64) -> (result: Result<Self, InvalidTaskPosition>)
        ensures
            match result {
                Ok(position) => 1 <= ordinal <= total && position.number() == ordinal
                    && position.count() == total,
                Err(_) => ordinal == 0 || ordinal > total,
            },
    {
        if ordinal == 0 || ordinal > total {
            Err(InvalidTaskPosition)
        } else {
            Ok(TaskPosition { ordinal, total })
        }
    }

    pub fn ordinal(self) -> (ordinal: u64)
        ensures
            ordinal == self.number(),
            1 <= ordinal <= self.count(),
    {
        proof {
            use_type_invariant(&self);
        }
        self.ordinal
    }

    pub fn total(self) -> (total: u64)
        ensures
            total == self.count(),
    {
        self.total
    }
}

/// How a task ended.
#[derive(Clone, Copy, Debug, PartialEq, Eq, Structural)]
pub enum TaskFinishedOutcome {
    Complete,
    Partial { diagnostic: DiagnosticOccurrenceId },
    Unavailable { diagnostic: DiagnosticOccurrenceId },
    Failed { diagnostic: DiagnosticOccurrenceId },
    /// The task had a result, but an earlier task failed and it was not applied. It refers
    /// to the earlier failure instead of repeating it.
    NotCommittedAfterEarlierFailure { diagnostic: DiagnosticOccurrenceId },
    Cancelled,
}

/// The counter that a finished task belongs to.
#[derive(Clone, Copy, Debug, PartialEq, Eq, Structural)]
pub enum TaskCounterKind {
    Complete,
    Partial,
    Unavailable,
    Failed,
    Cancelled,
}

impl TaskFinishedOutcome {
    pub open spec fn counter(self) -> TaskCounterKind {
        match self {
            Self::Complete => TaskCounterKind::Complete,
            Self::Partial { .. } => TaskCounterKind::Partial,
            Self::Unavailable { .. } => TaskCounterKind::Unavailable,
            Self::Failed { .. } => TaskCounterKind::Failed,
            Self::NotCommittedAfterEarlierFailure { .. } => TaskCounterKind::Failed,
            Self::Cancelled => TaskCounterKind::Cancelled,
        }
    }

    pub open spec fn named(self) -> Option<DiagnosticOccurrenceId> {
        match self {
            Self::Complete => None,
            Self::Partial { diagnostic } => Some(diagnostic),
            Self::Unavailable { diagnostic } => Some(diagnostic),
            Self::Failed { diagnostic } => Some(diagnostic),
            Self::NotCommittedAfterEarlierFailure { diagnostic } => Some(diagnostic),
            Self::Cancelled => None,
        }
    }

    pub open spec fn name(self) -> &'static str {
        match self {
            Self::Complete => "complete",
            Self::Partial { .. } => "partial",
            Self::Unavailable { .. } => "unavailable",
            Self::Failed { .. } => "failed",
            Self::NotCommittedAfterEarlierFailure { .. } => "not_committed_after_earlier_failure",
            Self::Cancelled => "cancelled",
        }
    }

    pub fn counter_kind(self) -> (kind: TaskCounterKind)
        ensures
            kind == self.counter(),
    {
        match self {
            Self::Complete => TaskCounterKind::Complete,
            Self::Partial { .. } => TaskCounterKind::Partial,
            Self::Unavailable { .. } => TaskCounterKind::Unavailable,
            Self::Failed { .. } => TaskCounterKind::Failed,
            Self::NotCommittedAfterEarlierFailure { .. } => TaskCounterKind::Failed,
            Self::Cancelled => TaskCounterKind::Cancelled,
        }
    }

    pub fn diagnostic(self) -> (diagnostic: Option<DiagnosticOccurrenceId>)
        ensures
            diagnostic == self.named(),
    {
        match self {
            Self::Complete => None,
            Self::Partial { diagnostic } => Some(diagnostic),
            Self::Unavailable { diagnostic } => Some(diagnostic),
            Self::Failed { diagnostic } => Some(diagnostic),
            Self::NotCommittedAfterEarlierFailure { diagnostic } => Some(diagnostic),
            Self::Cancelled => None,
        }
    }

    pub fn as_str(self) -> (name: &'static str)
        ensures
            name == self.name(),
    {
        match self {
            Self::Complete => "complete",
            Self::Partial { .. } => "partial",
            Self::Unavailable { .. } => "unavailable",
            Self::Failed { .. } => "failed",
            Self::NotCommittedAfterEarlierFailure { .. } => "not_committed_after_earlier_failure",
            Self::Cancelled => "cancelled",
        }
    }
}

/// Why task counters do not add up.
#[derive(Clone, Copy, Debug, PartialEq, Eq, Structural)]
pub enum TaskCounterInvariantError {
    StartedBreakdown,
    PlannedBreakdown,
    Overflow,
}

impl TaskCounterInvariantError {
    pub open spec fn text(self) -> &'static str {
        match self {
            Self::StartedBreakdown => "started 与任务终态合计不一致",
            Self::PlannedBreakdown => "planned 与 started + not_started 不一致",
            Self::Overflow => "任务计数相加溢出",
        }
    }

    pub fn message(self) -> (message: &'static str)
        ensures
            message == self.text(),
    {
        match self {
            Self::StartedBreakdown => "started 与任务终态合计不一致",
            Self::PlannedBreakdown => "planned 与 started + not_started 不一致",
            Self::Overflow => "任务计数相加溢出",
        }
    }
}

/// How many tasks were planned, started and ended in which way.
#[derive(Clone, Copy, Debug, PartialEq, Eq, Structural)]
pub struct TranslationTaskCounters {
    pub planned: u64,
    pub started: u64,
    pub complete: u64,
    pub partial: u64,
    pub unavailable: u64,
    pub failed: u64,
    pub cancelled: u64,
    pub not_started: u64,
}

impl TranslationTaskCounters {
    pub open spec fn ended(&self) -> int {
        self.complete + self.partial + self.unavailable + self.failed + self.cancelled
    }

    /// Every started task ended in one way, and every planned task was started or not.
    pub open spec fn adds_up(&self) -> bool {
        self.started == self.ended() && self.planned == self.started + self.not_started
    }

    /// The counters, if they add up, and otherwise why not.
    pub open spec fn checked(self) -> Result<Self, TaskCounterInvariantError> {
        if self.ended() > u64::MAX {
            Err(TaskCounterInvariantError::Overflow)
        } else if self.started != self.ended() {
            Err(TaskCounterInvariantError::StartedBreakdown)
        } else if self.started + self.not_started > u64::MAX {
            Err(TaskCounterInvariantError::Overflow)
        } else if self.planned != self.started + self.not_started {
            Err(TaskCounterInvariantError::PlannedBreakdown)
        } else {
            Ok(self)
        }
    }

    /// Counters that add up. A sum that does not fit is reported as such; the breakdown of
    /// the started tasks is checked before that of the planned ones.
    pub fn new(
        planned: u64,
        started: u64,
        complete: u64,
        partial: u64,
        unavailable: u64,
        failed: u64,
        cancelled: u64,
        not_started: u64,
    ) -> (result: Result<Self, TaskCounterInvariantError>)
        ensures
            result == (TranslationTaskCounters {
                planned,
                started,
                complete,
                partial,
                unavailable,
                failed,
                cancelled,
                not_started,
            }).checked(),
            result matches Ok(counters) ==> counters.adds_up(),
    {
        let ended: u128 = complete as u128 + partial as u128 + unavailable as u128 + failed as u128
            + cancelled as u128;
        if ended > u64::MAX as u128 {
            return Err(TaskCounterInvariantError::Overflow);
        }
        if started as u128 != ended {
            return Err(TaskCounterInvariantError::StartedBreakdown);
        }
        match started.checked_add(not_started) {
            None => Err(TaskCounterInvariantError::Overflow),
            Some(accounted) => {
                if planned != accounted {
                    Err(TaskCounterInvariantError::PlannedBreakdown)
                } else {
                    Ok(
                        TranslationTaskCounters {
                            planned,
                            started,
                            complete,
                            partial,
                            unavailable,
                            failed,
                            cancelled,
                            not_started,
                        },
                    )
                }
            },
        }
    }
}

/// What a translation of a generic project did.
#[derive(Clone, Copy, Debug, PartialEq, Eq, Structural)]
pub struct GenericTranslationSummary {
    pub cleared_units: u64,
    pub reused_units: u64,
    pub accepted_units: u64,
    pub written_units: u64,
    pub conflicted_units: u64,
    pub response_problems: u64,
}

/// What a translation of an RPG Maker project did.
#[derive(Clone, Copy, Debug, PartialEq, Eq, Structural)]
pub struct RpgMakerTranslationSummary {
    pub accepted_decisions: u64,
    pub written_locations: u64,
    pub remaining_decisions: u64,
    pub remaining_locations: u64,
    pub protocol_diagnostics: u64,
    pub recoverable_request_exhaustions: u64,
    pub retained: u64,
    pub invalidated: u64,
    pub not_applicable: u64,
    pub reused: u64,
}

/// What a translation did.
#[derive(Clone, Copy, Debug, PartialEq, Eq, Structural)]
pub enum TranslationEngineSummary {
    Generic(GenericTranslationSummary),
    RpgMaker(RpgMakerTranslationSummary),
}

impl TranslationEngineSummary {
    /// Whether the summary is one of `engine`.
    pub open spec fn fits(self, engine: ProjectLogEngine) -> bool {
        match self {
            Self::Generic(_) => engine == ProjectLogEngine::Generic,
            Self::RpgMaker(_) => engine != ProjectLogEngine::Generic,
        }
    }

    pub fn is_for(self, engine: ProjectLogEngine) -> (result: bool)
        ensures
            result == self.fits(engine),
    {
        match self {
            Self::Generic(_) => engine == ProjectLogEngine::Generic,
            Self::RpgMaker(_) => engine != ProjectLogEngine::Generic,
        }
    }
}

/// How a translation ended.
#[derive(Clone, Copy, Debug, PartialEq, Eq, Structural)]
pub enum TranslationFinished {
    NotStarted,
    NoWork { tasks: TranslationTaskCounters, summary: TranslationEngineSummary },
    Complete { tasks: TranslationTaskCounters, summary: TranslationEngineSummary },
    Incomplete { tasks: TranslationTaskCounters, summary: TranslationEngineSummary },
    Failed {
        tasks: TranslationTaskCounters,
        summary: Option<TranslationEngineSummary>,
        diagnostic: DiagnosticOccurrenceId,
    },
    Cancelled { tasks: TranslationTaskCounters, summary: Option<TranslationEngineSummary> },
}

impl TranslationFinished {
    pub open spec fn counters(self) -> Option<TranslationTaskCounters> {
        match self {
            Self::NotStarted => None,
            Self::NoWork { tasks, .. } => Some(tasks),
            Self::Complete { tasks, .. } => Some(tasks),
            Self::Incomplete { tasks, .. } => Some(tasks),
            Self::Failed { tasks, .. } => Some(tasks),
            Self::Cancelled { tasks, .. } => Some(tasks),
        }
    }

    pub open spec fn named(self) -> Option<DiagnosticOccurrenceId> {
        match self {
            Self::Failed { diagnostic, .. } => Some(diagnostic),
            _ => None,
        }
    }

    pub open spec fn result_name(self) -> &'static str {
        match self {
            Self::NotStarted => "not_started",
            Self::NoWork { .. } => "no_work",
            Self::Complete { .. } => "complete",
            Self::Incomplete { .. } => "incomplete",
            Self::Failed { .. } => "failed",
            Self::Cancelled { .. } => "cancelled",
        }
    }

    /// Whether the summary, where there is one, is one of `engine`.
    pub open spec fn summary_fits(self, engine: ProjectLogEngine) -> bool {
        match self {
            Self::NotStarted => true,
            Self::NoWork { summary, .. } => summary.fits(engine),
            Self::Complete { summary, .. } => summary.fits(engine),
            Self::Incomplete { summary, .. } => summary.fits(engine),
            Self::Failed { summary, .. } => summary is None || summary->0.fits(engine),
            Self::Cancelled { summary, .. } => summary is None || summary->0.fits(engine),
        }
    }

    pub fn tasks(&self) -> (tasks: Option<TranslationTaskCounters>)
        ensures
            tasks == self.counters(),
    {
        match self {
            Self::NotStarted => None,
            Self::NoWork { tasks, .. } => Some(*tasks),
            Self::Complete { tasks, .. } => Some(*tasks),
            Self::Incomplete { tasks, .. } => Some(*tasks),
            Self::Failed { tasks, .. } => Some(*tasks),
            Self::Cancelled { tasks, .. } => Some(*tasks),
        }
    }

    pub fn diagnostic(&self) -> (diagnostic: Option<DiagnosticOccurrenceId>)
        ensures
            diagnostic == self.named(),
    {
        match self {
            Self::Failed { diagnostic, .. } => Some(*diagnostic),
            _ => None,
        }
    }

    /// Whether the summary, where there is one, is one of `engine`.
    pub fn has_summary_for(&self, engine: ProjectLogEngine) -> (result: bool)
        ensures
            result == self.summary_fits(engine),
    {
        let optional = match self {
            Self::NotStarted => None,
            Self::NoWork { summary, .. } => Some(*summary),
            Self::Complete { summary, .. } => Some(*summary),
            Self::Incomplete { summary, .. } => Some(*summary),
            Self::Failed { summary, .. } => *summary,
            Self::Cancelled { summary, .. } => *summary,
        };
        match optional {
            Some(summary) => summary.is_for(engine),
            None => true,
        }
    }

    fn result_text(&self) -> (name: &'static str)
        ensures
            name == self.result_name(),
    {
        match self {
            Self::NotStarted => "not_started",
            Self::NoWork { .. } => "no_work",
            Self::Complete { .. } => "complete",
            Self::Incomplete { .. } => "incomplete",
            Self::Failed { .. } => "failed",
            Self::Cancelled { .. } => "cancelled",
        }
    }
}

/// What a publication of a generic project wrote.
#[derive(Clone, Copy, Debug, PartialEq, Eq, Structural)]
pub struct GenericPublicationSummary {
    pub files: u64,
    pub translated_units: u64,
    pub retained_source_units: u64,
    pub symbol_repair_attempted_units: u64,
    pub symbol_repair_repaired_units: u64,
    pub symbol_repair_skipped_units: u64,
    pub symbol_repair_replacements: u64,
}

/// What a publication of an RPG Maker project wrote.
#[derive(Clone, Copy, Debug, PartialEq, Eq, Structural)]
pub struct RpgMakerPublicationSummary {
    pub translated_units: u64,
    pub original_units: u64,
    pub auto_wrapped_units: u64,
    pub inserted_line_breaks: u64,
    pub inserted_fullwidth_indents: u64,
    pub manual_layout_units: u64,
    pub symbol_repair_attempted_units: u64,
    pub symbol_repair_repaired_units: u64,
    pub symbol_repair_skipped_units: u64,
    pub symbol_repair_replacements: u64,
}

/// What a publication wrote.
#[derive(Clone, Copy, Debug, PartialEq, Eq, Structural)]
pub enum PublicationSummary {
    Generic(GenericPublicationSummary),
    RpgMaker(RpgMakerPublicationSummary),
}

impl PublicationSummary {
    pub open spec fn fits(self, engine: ProjectLogEngine) -> bool {
        match self {
            Self::Generic(_) => engine == ProjectLogEngine::Generic,
            Self::RpgMaker(_) => engine != ProjectLogEngine::Generic,
        }
    }

    pub fn is_for(self, engine: ProjectLogEngine) -> (result: bool)
        ensures
            result == self.fits(engine),
    {
        match self {
            Self::Generic(_) => engine == ProjectLogEngine::Generic,
            Self::RpgMaker(_) => engine != ProjectLogEngine::Generic,
        }
    }
}

/// How a publication ended.
#[derive(Clone, Copy, Debug, PartialEq, Eq, Structural)]
pub enum PublicationFinished {
    Published { summary: PublicationSummary },
    NotPublished { diagnostic: DiagnosticOccurrenceId },
    RecoveryRequired { diagnostic: DiagnosticOccurrenceId },
    OutcomeUnknown { diagnostic: DiagnosticOccurrenceId },
}

impl PublicationFinished {
    pub open spec fn named(self) -> Option<DiagnosticOccurrenceId> {
        match self {
            Self::Published { .. } => None,
            Self::NotPublished { diagnostic } => Some(diagnostic),
            Self::RecoveryRequired { diagnostic } => Some(diagnostic),
            Self::OutcomeUnknown { diagnostic } => Some(diagnostic),
        }
    }

    pub open spec fn result_name(self) -> &'static str {
        match self {
            Self::Published { .. } => "published",
            Self::NotPublished { .. } => "not_published",
            Self::RecoveryRequired { .. } => "recovery_required",
            Self::OutcomeUnknown { .. } => "outcome_unknown",
        }
    }

    pub fn diagnostic(self) -> (diagnostic: Option<DiagnosticOccurrenceId>)
        ensures
            diagnostic == self.named(),
    {
        match self {
            Self::Published { .. } => None,
            Self::NotPublished { diagnostic } => Some(diagnostic),
            Self::RecoveryRequired { diagnostic } => Some(diagnostic),
            Self::OutcomeUnknown { diagnostic } => Some(diagnostic),
        }
    }

    fn result_text(self) -> (name: &'static str)
        ensures
            name == self.result_name(),
    {
        match self {
            Self::Published { .. } => "published",
            Self::NotPublished { .. } => "not_published",
            Self::RecoveryRequired { .. } => "recovery_required",
            Self::OutcomeUnknown { .. } => "outcome_unknown",
        }
    }
}

/// How a run ended.
#[derive(Clone, Copy, Debug, PartialEq, Eq, Structural)]
pub enum RunFinished {
    Succeeded,
    Cancelled,
    Failed { diagnostic: DiagnosticOccurrenceId },
    RecoveryRequired { diagnostic: DiagnosticOccurrenceId },
    OutcomeUnknown { diagnostic: DiagnosticOccurrenceId },
}

impl RunFinished {
    pub open spec fn named(self) -> Option<DiagnosticOccurrenceId> {
        match self {
            Self::Succeeded => None,
            Self::Cancelled => None,
            Self::Failed { diagnostic } => Some(diagnostic),
            Self::RecoveryRequired { diagnostic } => Some(diagnostic),
            Self::OutcomeUnknown { diagnostic } => Some(diagnostic),
        }
    }

    pub fn diagnostic(self) -> (diagnostic: Option<DiagnosticOccurrenceId>)
        ensures
            diagnostic == self.named(),
    {
        match self {
            Self::Succeeded => None,
            Self::Cancelled => None,
            Self::Failed { diagnostic } => Some(diagnostic),
            Self::RecoveryRequired { diagnostic } => Some(diagnostic),
            Self::OutcomeUnknown { diagnostic } => Some(diagnostic),
        }
    }
}

/// What a diagnostic is about.
#[derive(Clone, Copy, Debug, PartialEq, Eq, Structural)]
pub enum DiagnosticScope {
    Run,
    RunPlan,
    TranslationTask,
    Extract,
    WriteBack,
    Publication,
    TaskRecord,
    ProjectLog,
}

impl DiagnosticScope {
    pub open spec fn event_code(self) -> ProjectLogCode {
        match self {
            Self::Run => ProjectLogCode::RunDiagnostic,
            Self::RunPlan => ProjectLogCode::RunPlanDiagnostic,
            Self::TranslationTask => ProjectLogCode::TranslationTaskDiagnostic,
            Self::Extract => ProjectLogCode::ExtractDiagnostic,
            Self::WriteBack => ProjectLogCode::WriteBackDiagnostic,
            Self::Publication => ProjectLogCode::PublicationDiagnostic,
            Self::TaskRecord => ProjectLogCode::TaskRecordDiagnostic,
            Self::ProjectLog => ProjectLogCode::ProjectLogDiagnostic,
        }
    }

    /// Diagnostics of the run, its plan and its publication are errors; the others warn.
    pub open spec fn event_level(self) -> ProjectLogLevel {
        if self == Self::Run || self == Self::RunPlan || self == Self::Publication {
            ProjectLogLevel::Error
        } else {
            ProjectLogLevel::Warn
        }
    }

    pub fn code(self) -> (code: ProjectLogCode)
        ensures
            code == self.event_code(),
    {
        match self {
            Self::Run => ProjectLogCode::RunDiagnostic,
            Self::RunPlan => ProjectLogCode::RunPlanDiagnostic,
            Self::TranslationTask => ProjectLogCode::TranslationTaskDiagnostic,
            Self::Extract => ProjectLogCode::ExtractDiagnostic,
            Self::WriteBack => ProjectLogCode::WriteBackDiagnostic,
            Self::Publication => ProjectLogCode::PublicationDiagnostic,
            Self::TaskRecord => ProjectLogCode::TaskRecordDiagnostic,
            Self::ProjectLog => ProjectLogCode::ProjectLogDiagnostic,
        }
    }

    /// The level of a diagnostic of this scope, whatever its effect.
    pub fn level(self, _effect: StateEffect) -> (level: ProjectLogLevel)
        ensures
            level == self.event_level(),
    {
        match self {
            Self::Run | Self::RunPlan | Self::Publication => ProjectLogLevel::Error,
            Self::TranslationTask
            | Self::Extract
            | Self::WriteBack
            | Self::TaskRecord
            | Self::ProjectLog => ProjectLogLevel::Warn,
        }
    }
}

/// A problem with its related failures, written as one event so that nothing can come
/// between its parts.
#[derive(Debug, PartialEq, Eq)]
pub struct DiagnosticOccurrence {
    id: DiagnosticOccurrenceId,
    scope: DiagnosticScope,
    report: DiagnosticReport,
}

impl DiagnosticOccurrence {
    pub closed spec fn identity(&self) -> DiagnosticOccurrenceId {
        self.id
    }

    pub closed spec fn about(&self) -> DiagnosticScope {
        self.scope
    }

    pub closed spec fn reported(&self) -> DiagnosticReport {
        self.report
    }

    pub(crate) fn new(
        id: DiagnosticOccurrenceId,
        scope: DiagnosticScope,
        report: DiagnosticReport,
    ) -> (occurrence: Self)
        ensures
            occurrence.identity() == id,
            occurrence.about() == scope,
            occurrence.reported() == report,
    {
        DiagnosticOccurrence { id, scope, report }
    }

    pub fn id(&self) -> (id: DiagnosticOccurrenceId)
        ensures
            id == self.identity(),
    {
        self.id
    }

    pub fn scope(&self) -> (scope: DiagnosticScope)
        ensures
            scope == self.about(),
    {
        self.scope
    }

    pub fn report(&self) -> (report: &DiagnosticReport)
        ensures
            *report == self.reported(),
    {
        &self.report
    }
}

/// What failed in the project log itself.
#[derive(Debug, PartialEq, Eq)]
pub enum ProjectLogFailureKey {
    BestEffortBackpressure { code: ProjectLogCode },
    Serialize { path: Option<SafePath>, code: ProjectLogCode },
    Write {
        path: Option<SafePath>,
        code: ProjectLogCode,
        io_kind: SafeIoKind,
        raw_os_code: Option<i32>,
    },
    Flush { path: Option<SafePath>, io_kind: SafeIoKind, raw_os_code: Option<i32> },
    Sync { path: Option<SafePath>, io_kind: SafeIoKind, raw_os_code: Option<i32> },
    ChannelClosed { code: Option<ProjectLogCode> },
    WorkerPanicked,
    SequenceExhausted,
    OccurrenceIdExhausted,
    NotPersisted { code: ProjectLogCode },
}

/// A failure and how often it happened.
#[derive(Debug, PartialEq, Eq)]
pub struct ProjectLogFailureCount {
    pub failure: ProjectLogFailureKey,
    pub count: ObservabilityFailureCount,
}

/// All failures of the project log so far, in the order of their keys.
#[derive(Debug, PartialEq, Eq)]
pub struct ProjectLogHealthSnapshot {
    pub failures: Vec<ProjectLogFailureCount>,
}

/// An event of the project log.
#[derive(Debug, PartialEq, Eq)]
pub enum ProjectLogEvent {
    RunStarted,
    CancellationRequested { confirmed: u64, total: Option<u64> },
    PhaseStarted { phase: ProjectLogPhase, amount: ProjectLogAmount },
    PhaseCompleted { phase: ProjectLogPhase, amount: ProjectLogAmount },
    PhaseStopped { phase: ProjectLogPhase, outcome: PhaseStopOutcome },
    RunPlanResolved { plan: ResolvedRunPlan },
    RunPlanFinalized { database: SafePath, result: RunPlanFinalization },
    TaskStarted { task: TaskPosition },
    TaskFinished { task: TaskPosition, attempts: u64, outcome: TaskFinishedOutcome },
    TranslationFinished { result: TranslationFinished },
    RetrySummary { attempted: u64, recovered: u64, exhausted: u64 },
    PublicationStarted { output_root: SafePath },
    PublicationFinished { result: PublicationFinished },
    LuaPrint { message: SafeText },
    Diagnostic { occurrence: DiagnosticOccurrence },
    ProjectLogDegraded { health: ProjectLogHealthSnapshot },
    PerformanceCounters { snapshot: RunPerformanceSnapshot },
    RunFinished { result: RunFinished },
}

impl ProjectLogEvent {
    pub open spec fn kind(&self) -> ProjectLogCode {
        match self {
            Self::RunStarted => ProjectLogCode::RunStarted,
            Self::CancellationRequested { .. } => ProjectLogCode::CancellationRequested,
            Self::PhaseStarted { .. } => ProjectLogCode::PhaseStarted,
            Self::PhaseCompleted { .. } => ProjectLogCode::PhaseCompleted,
            Self::PhaseStopped { .. } => ProjectLogCode::PhaseStopped,
            Self::RunPlanResolved { .. } => ProjectLogCode::RunPlanResolved,
            Self::RunPlanFinalized { .. } => ProjectLogCode::RunPlanFinalized,
            Self::TaskStarted { .. } => ProjectLogCode::TaskStarted,
            Self::TaskFinished { .. } => ProjectLogCode::TaskFinished,
            Self::TranslationFinished { .. } => ProjectLogCode::TranslationFinished,
            Self::RetrySummary { .. } => ProjectLogCode::RetrySummary,
            Self::PublicationStarted { .. } => ProjectLogCode::PublicationStarted,
            Self::PublicationFinished { .. } => ProjectLogCode::PublicationFinished,
            Self::LuaPrint { .. } => ProjectLogCode::LuaPrint,
            Self::Diagnostic { occurrence } => occurrence.about().event_code(),
            Self::ProjectLogDegraded { .. } => ProjectLogCode::ProjectLogDegraded,
            Self::PerformanceCounters { .. } => ProjectLogCode::PerformanceCounters,
            Self::RunFinished { .. } => ProjectLogCode::RunFinished,
        }
    }

    /// An event is as urgent as the result it carries; printing is for debugging.
    pub open spec fn urgency(&self) -> ProjectLogLevel {
        match self {
            Self::CancellationRequested { .. } => ProjectLogLevel::Warn,
            Self::PhaseStopped { outcome, .. } => if outcome is Failed {
                ProjectLogLevel::Error
            } else {
                ProjectLogLevel::Warn
            },
            Self::RunPlanFinalized { result, .. } => if result is Saved {
                ProjectLogLevel::Info
            } else {
                ProjectLogLevel::Error
            },
            Self::TaskFinished { outcome, .. } => match outcome.counter() {
                TaskCounterKind::Complete => ProjectLogLevel::Info,
                TaskCounterKind::Failed => ProjectLogLevel::Error,
                _ => ProjectLogLevel::Warn,
            },
            Self::TranslationFinished { result } => if result is NoWork || result is Complete {
                ProjectLogLevel::Info
            } else if result is Failed {
                ProjectLogLevel::Error
            } else {
                ProjectLogLevel::Warn
            },
            Self::PublicationFinished { result } => if result is Published {
                ProjectLogLevel::Info
            } else {
                ProjectLogLevel::Error
            },
            Self::LuaPrint { .. } => ProjectLogLevel::Debug,
            Self::Diagnostic { occurrence } => occurrence.about().event_level(),
            Self::ProjectLogDegraded { .. } => ProjectLogLevel::Warn,
            Self::RunFinished { result } => if result.named() is None {
                ProjectLogLevel::Info
            } else {
                ProjectLogLevel::Error
            },
            _ => ProjectLogLevel::Info,
        }
    }

    /// Progress and prints may be dropped; every result is required.
    pub open spec fn droppable(&self) -> bool {
        self is PhaseStarted || self is PhaseCompleted || self is TaskStarted || self is RetrySummary
            || self is LuaPrint
    }

    /// The diagnostic that the event refers to.
    pub open spec fn named(&self) -> Option<DiagnosticOccurrenceId> {
        match self {
            Self::PhaseStopped { outcome, .. } => match outcome {
                PhaseStopOutcome::Failed { diagnostic } => Some(*diagnostic),
                PhaseStopOutcome::Cancelled => None,
            },
            Self::RunPlanFinalized { result, .. } => result.named(),
            Self::TaskFinished { outcome, .. } => outcome.named(),
            Self::TranslationFinished { result } => result.named(),
            Self::PublicationFinished { result } => result.named(),
            Self::RunFinished { result } => result.named(),
            _ => None,
        }
    }

    pub fn phase_started(phase: ProjectLogPhase, amount: ProjectLogAmount) -> (event: Self)
        ensures
            event == (Self::PhaseStarted { phase, amount }),
    {
        Self::PhaseStarted { phase, amount }
    }

    pub fn phase_completed(phase: ProjectLogPhase, amount: ProjectLogAmount) -> (event: Self)
        ensures
            event == (Self::PhaseCompleted { phase, amount }),
    {
        Self::PhaseCompleted { phase, amount }
    }

    pub fn phase_stopped(phase: ProjectLogPhase, outcome: PhaseStopOutcome) -> (event: Self)
        ensures
            event == (Self::PhaseStopped { phase, outcome }),
    {
        Self::PhaseStopped { phase, outcome }
    }

    pub fn publication_started(output_root: &str) -> (event: Self)
        ensures
            event matches Self::PublicationStarted { output_root: root } && root@
                == diagnostic::safe_path(output_root@),
    {
        Self::PublicationStarted { output_root: SafePath::new(output_root) }
    }

    pub fn lua_print(message: &str) -> (event: Self)
        ensures
            event matches Self::LuaPrint { message: printed } && printed@
                == diagnostic::single_line(message@),
    {
        Self::LuaPrint { message: SafeText::new(message) }
    }

    pub fn code(&self) -> (code: ProjectLogCode)
        ensures
            code == self.kind(),
    {
        match self {
            Self::RunStarted => ProjectLogCode::RunStarted,
            Self::CancellationRequested { .. } => ProjectLogCode::CancellationRequested,
            Self::PhaseStarted { .. } => ProjectLogCode::PhaseStarted,
            Self::PhaseCompleted { .. } => ProjectLogCode::PhaseCompleted,
            Self::PhaseStopped { .. } => ProjectLogCode::PhaseStopped,
            Self::RunPlanResolved { .. } => ProjectLogCode::RunPlanResolved,
            Self::RunPlanFinalized { .. } => ProjectLogCode::RunPlanFinalized,
            Self::TaskStarted { .. } => ProjectLogCode::TaskStarted,
            Self::TaskFinished { .. } => ProjectLogCode::TaskFinished,
            Self::TranslationFinished { .. } => ProjectLogCode::TranslationFinished,
            Self::RetrySummary { .. } => ProjectLogCode::RetrySummary,
            Self::PublicationStarted { .. } => ProjectLogCode::PublicationStarted,
            Self::PublicationFinished { .. } => ProjectLogCode::PublicationFinished,
            Self::LuaPrint { .. } => ProjectLogCode::LuaPrint,
            Self::Diagnostic { occurrence } => occurrence.scope().code(),
            Self::ProjectLogDegraded { .. } => ProjectLogCode::ProjectLogDegraded,
            Self::PerformanceCounters { .. } => ProjectLogCode::PerformanceCounters,
            Self::RunFinished { .. } => ProjectLogCode::RunFinished,
        }
    }

    pub fn level(&self) -> (level: ProjectLogLevel)
        ensures
            level == self.urgency(),
    {
        match self {
            Self::RunStarted
            | Self::PhaseStarted { .. }
            | Self::PhaseCompleted { .. }
            | Self::RunPlanResolved { .. }
            | Self::TaskStarted { .. }
            | Self::RetrySummary { .. }
            | Self::PublicationStarted { .. }
            | Self::PerformanceCounters { .. } => ProjectLogLevel::Info,
            Self::CancellationRequested { .. } | Self::ProjectLogDegraded { .. } => {
                ProjectLogLevel::Warn
            },
            Self::PhaseStopped { outcome, .. } => match outcome {
                PhaseStopOutcome::Failed { .. } => ProjectLogLevel::Error,
                PhaseStopOutcome::Cancelled => ProjectLogLevel::Warn,
            },
            Self::RunPlanFinalized { result, .. } => match result {
                RunPlanFinalization::Saved { .. } => ProjectLogLevel::Info,
                _ => ProjectLogLevel::Error,
            },
            Self::TaskFinished { outcome, .. } => match outcome {
                TaskFinishedOutcome::Complete => ProjectLogLevel::Info,
                TaskFinishedOutcome::Partial { .. }
                | TaskFinishedOutcome::Unavailable { .. }
                | TaskFinishedOutcome::Cancelled => ProjectLogLevel::Warn,
                TaskFinishedOutcome::Failed { .. }
                | TaskFinishedOutcome::NotCommittedAfterEarlierFailure { .. } => {
                    ProjectLogLevel::Error
                },
            },
            Self::TranslationFinished { result } => match result {
                TranslationFinished::NoWork { .. } | TranslationFinished::Complete { .. } => {
                    ProjectLogLevel::Info
                },
                TranslationFinished::NotStarted
                | TranslationFinished::Incomplete { .. }
                | TranslationFinished::Cancelled { .. } => ProjectLogLevel::Warn,
                TranslationFinished::Failed { .. } => ProjectLogLevel::Error,
            },
            Self::PublicationFinished { result } => match result {
                PublicationFinished::Published { .. } => ProjectLogLevel::Info,
                _ => ProjectLogLevel::Error,
            },
            Self::RunFinished { result } => match result {
                RunFinished::Succeeded | RunFinished::Cancelled => ProjectLogLevel::Info,
                _ => ProjectLogLevel::Error,
            },
            Self::LuaPrint { .. } => ProjectLogLevel::Debug,
            Self::Diagnostic { occurrence } => occurrence.scope().level(occurrence.report().effect()),
        }
    }

    pub fn delivery(&self) -> (delivery: ProjectLogDelivery)
        ensures
            delivery == (if self.droppable() {
                ProjectLogDelivery::BestEffort
            } else {
                ProjectLogDelivery::Required
            }),
    {
        match self {
            Self::PhaseStarted { .. }
            | Self::PhaseCompleted { .. }
            | Self::TaskStarted { .. }
            | Self::RetrySummary { .. }
            | Self::LuaPrint { .. } => ProjectLogDelivery::BestEffort,
            _ => ProjectLogDelivery::Required,
        }
    }

    pub fn referenced_diagnostic(&self) -> (diagnostic: Option<DiagnosticOccurrenceId>)
        ensures
            diagnostic == self.named(),
    {
        match self {
            Self::PhaseStopped { outcome, .. } => match outcome {
                PhaseStopOutcome::Failed { diagnostic } => Some(*diagnostic),
                PhaseStopOutcome::Cancelled => None,
            },
            Self::RunPlanFinalized { result, .. } => result.diagnostic(),
            Self::TaskFinished { outcome, .. } => outcome.diagnostic(),
            Self::TranslationFinished { result } => result.diagnostic(),
            Self::PublicationFinished { result } => result.diagnostic(),
            Self::RunFinished { result } => result.diagnostic(),
            _ => None,
        }
    }
}

/// A message of the user interface, with the values that it shows.
#[derive(Debug, PartialEq, Eq)]
pub enum UiMessage {
    LogRunStarted { command: &'static str },
    LogRunSucceeded { command: &'static str },
    LogRunCancelled { command: &'static str },
    LogRunOutcomeUnknown { command: &'static str },
    LogRunRecoveryRequired { command: &'static str },
    LogRunFailed { command: &'static str },
    LogPlanResolved { command: &'static str, source: &'static str },
    LogPhaseStarted { phase: &'static str },
    LogPhaseCompleted { phase: &'static str },
    LogPhaseStopped { phase: &'static str, outcome: &'static str },
    LogCancellationRequested { confirmed: u64, total: u64 },
    LogCancellationRequestedIndeterminate { confirmed: u64 },
    LogRunPlanFinalized { result: &'static str },
    LogRetrySummary { count: u64 },
    LogTranslationTaskStarted { index: u64, total: u64 },
    /// The outcome is itself localized before it is shown.
    LogTranslationTaskFinished { index: u64, outcome: &'static str },
    LogTranslationFinished { result: &'static str },
    LogPublicationStarted { path: SafePath },
    LogPublicationFinished { result: &'static str },
    LogProjectLogDegraded { failure_kinds: u64 },
    LogLuaPrint { message: String },
    LogPerformanceCounters {
        sqlite_control_attempted_total: u64,
        candidate_validation_started: u64,
        candidate_validation_completed: u64,
    },
    /// The report of a diagnostic event, rendered as object, reason and help.
    LogDiagnostic,
}

/// The line of a diagnostic event.
pub fn diagnostic_line(object: &str, reason: &str, help: &str) -> (line: String)
    ensures
        line@ == object@ + ": "@ + reason@ + " "@ + help@,
{
    String::from_str(object).concat(": ").concat(reason).concat(" ").concat(help)
}

impl ProjectLogEvent {
    /// Whether `message` is the one to show for the event.
    pub open spec fn is_described_by(&self, command: ProjectLogCommand, message: UiMessage) -> bool {
        match self {
            Self::RunStarted => message == (UiMessage::LogRunStarted { command: command.name() }),
            Self::RunFinished { result } => message == (match result {
                RunFinished::Succeeded => UiMessage::LogRunSucceeded { command: command.name() },
                RunFinished::Cancelled => UiMessage::LogRunCancelled { command: command.name() },
                RunFinished::Failed { .. } => UiMessage::LogRunFailed { command: command.name() },
                RunFinished::RecoveryRequired { .. } => UiMessage::LogRunRecoveryRequired {
                    command: command.name(),
                },
                RunFinished::OutcomeUnknown { .. } => UiMessage::LogRunOutcomeUnknown {
                    command: command.name(),
                },
            }),
            Self::RunPlanResolved { plan } => message == (UiMessage::LogPlanResolved {
                command: command.name(),
                source: plan.origin().name(),
            }),
            Self::PhaseStarted { phase, .. } => message == (UiMessage::LogPhaseStarted {
                phase: phase.name(),
            }),
            Self::PhaseCompleted { phase, .. } => message == (UiMessage::LogPhaseCompleted {
                phase: phase.name(),
            }),
            Self::PhaseStopped { phase, outcome } => message == (UiMessage::LogPhaseStopped {
                phase: phase.name(),
                outcome: if outcome is Failed {
                    "failed"
                } else {
                    "cancelled"
                },
            }),
            Self::CancellationRequested { confirmed, total } => message == (match total {
                Some(total) => UiMessage::LogCancellationRequested {
                    confirmed: *confirmed,
                    total: *total,
                },
                None => UiMessage::LogCancellationRequestedIndeterminate { confirmed: *confirmed },
            }),
            Self::RunPlanFinalized { result, .. } => message == (UiMessage::LogRunPlanFinalized {
                result: result.result_name(),
            }),
            Self::RetrySummary { attempted, .. } => message == (UiMessage::LogRetrySummary {
                count: *attempted,
            }),
            Self::TaskStarted { task } => message == (UiMessage::LogTranslationTaskStarted {
                index: task.number(),
                total: task.count(),
            }),
            Self::TaskFinished { task, outcome, .. } => message == (
            UiMessage::LogTranslationTaskFinished { index: task.number(), outcome: outcome.name() }),
            Self::TranslationFinished { result } => message == (UiMessage::LogTranslationFinished {
                result: result.result_name(),
            }),
            Self::PublicationStarted { output_root } => message == (
            UiMessage::LogPublicationStarted { path: *output_root }),
            Self::PublicationFinished { result } => message == (UiMessage::LogPublicationFinished {
                result: result.result_name(),
            }),
            Self::ProjectLogDegraded { health } => message == (UiMessage::LogProjectLogDegraded {
                failure_kinds: health.failures.len() as u64,
            }),
            Self::LuaPrint { message: printed } => message matches UiMessage::LogLuaPrint {
                message: shown,
            } && shown@ == printed@,
            Self::PerformanceCounters { snapshot } => message matches UiMessage::LogPerformanceCounters {
                sqlite_control_attempted_total,
                candidate_validation_started,
                candidate_validation_completed,
            } && {
                let counts = snapshot.sqlite_transactions;
                let sum = counts.read_snapshot.attempts() + counts.write_plan.attempts()
                    + counts.database_initialization.attempts() + counts.interactive.attempts();
                &&& sqlite_control_attempted_total == (if sum <= u64::MAX { sum } else { u64::MAX as int })
                &&& candidate_validation_started == snapshot.candidate_validations.started
                &&& candidate_validation_completed == snapshot.candidate_validations.completed
            },
            Self::Diagnostic { .. } => message == UiMessage::LogDiagnostic,
        }
    }

    /// The message to show for the event.
    pub fn message(&self, context: &ProjectLogContext) -> (message: UiMessage)
        ensures
            self.is_described_by(context.for_command(), message),
    {
        let command = context.command().as_str();
        match self {
            Self::RunStarted => UiMessage::LogRunStarted { command },
            Self::RunFinished { result } => match result {
                RunFinished::Succeeded => UiMessage::LogRunSucceeded { command },
                RunFinished::Cancelled => UiMessage::LogRunCancelled { command },
                RunFinished::OutcomeUnknown { .. } => UiMessage::LogRunOutcomeUnknown { command },
                RunFinished::RecoveryRequired { .. } => UiMessage::LogRunRecoveryRequired { command },
                RunFinished::Failed { .. } => UiMessage::LogRunFailed { command },
            },
            Self::RunPlanResolved { plan } => UiMessage::LogPlanResolved {
                command,
                source: plan.source().as_str(),
            },
            Self::PhaseStarted { phase, .. } => UiMessage::LogPhaseStarted { phase: phase.as_str() },
            Self::PhaseCompleted { phase, .. } => UiMessage::LogPhaseCompleted {
                phase: phase.as_str(),
            },
            Self::PhaseStopped { phase, outcome } => UiMessage::LogPhaseStopped {
                phase: phase.as_str(),
                outcome: match outcome {
                    PhaseStopOutcome::Failed { .. } => "failed",
                    PhaseStopOutcome::Cancelled => "cancelled",
                },
            },
            Self::CancellationRequested { confirmed, total } => match total {
                Some(total) => UiMessage::LogCancellationRequested {
                    confirmed: *confirmed,
                    total: *total,
                },
                None => UiMessage::LogCancellationRequestedIndeterminate { confirmed: *confirmed },
            },
            Self::RunPlanFinalized { result, .. } => UiMessage::LogRunPlanFinalized {
                result: result.result_text(),
            },
            Self::RetrySummary { attempted, .. } => UiMessage::LogRetrySummary { count: *attempted },
            Self::TaskStarted { task } => UiMessage::LogTranslationTaskStarted {
                index: task.ordinal(),
                total: task.total(),
            },
            Self::TaskFinished { task, outcome, .. } => UiMessage::LogTranslationTaskFinished {
                index: task.ordinal(),
                outcome: outcome.as_str(),
            },
            Self::TranslationFinished { result } => UiMessage::LogTranslationFinished {
                result: result.result_text(),
            },
            Self::PublicationStarted { output_root } => UiMessage::LogPublicationStarted {
                path: output_root.clone(),
            },
            Self::PublicationFinished { result } => UiMessage::LogPublicationFinished {
                result: result.result_text(),
            },
            Self::ProjectLogDegraded { health } => UiMessage::LogProjectLogDegraded {
                failure_kinds: health.failures.len() as u64,
            },
            Self::LuaPrint { message } => UiMessage::LogLuaPrint {
                message: String::from_str(message.as_str()),
            },
            Self::PerformanceCounters { snapshot } => UiMessage::LogPerformanceCounters {
                sqlite_control_attempted_total: snapshot.sqlite_transactions.attempted_total(),
                candidate_validation_started: snapshot.candidate_validations.started,
                candidate_validation_completed: snapshot.candidate_validations.completed,
            },
            Self::Diagnostic { .. } => UiMessage::LogDiagnostic,
        }
    }
}

} // verus!
