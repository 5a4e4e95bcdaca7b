//! What a log line tells of its event, and how a line is framed.

use vstd::prelude::*;
use crate::diagnostic;
use crate::diagnostic::{SafePath, SafeText};
use crate::log_event::{
    diagnostic_line, PhaseStopOutcome, ProjectLogAmount, ProjectLogEvent, ProjectLogPhase,
    PublicationFinished, ResolvedRunPlan, RunFinished, RunPlanFinalization, TaskFinishedOutcome,
    TaskPosition, TranslationFinished, UiMessage,
};
use crate::performance::RunPerformanceSnapshot;

verus! {

/// A diagnostic in the words of the reader's language.
#[derive(Debug, PartialEq, Eq)]
pub struct RenderedDiagnostic {
    pub object: String,
    pub reason: String,
    pub help: String,
}

/// The payload of a log line.
#[derive(Debug)]
pub enum ProjectLogPayloadRef<'a> {
    RunStarted,
    CancellationRequested { confirmed: u64, total: Option<u64> },
    PhaseProgress { phase: ProjectLogPhase, amount: &'a ProjectLogAmount },
    PhaseStopped { phase: ProjectLogPhase, outcome: &'a PhaseStopOutcome },
    RunPlanResolved { plan: &'a ResolvedRunPlan },
    RunPlanFinalized { database: &'a SafePath, result: &'a RunPlanFinalization },
    TaskStarted { task: &'a TaskPosition },
    TaskFinished { task: &'a TaskPosition, attempts: u64, outcome: &'a TaskFinishedOutcome },
    TranslationFinished { result: &'a TranslationFinished },
    RetrySummary { attempted: u64, recovered: u64, exhausted: u64 },
    PublicationStarted { output_root: &'a SafePath },
    PublicationFinished { result: &'a PublicationFinished },
    LuaPrint { message: &'a SafeText },
    Diagnostic { object: SafeText, reason: SafeText, help: SafeText },
    ProjectLogDegraded { issues: u64 },
    PerformanceCounters { snapshot: &'a RunPerformanceSnapshot },
    RunFinished { result: &'a RunFinished },
}

impl<'a> ProjectLogPayloadRef<'a> {
    /// Whether this is the payload of `event`. A diagnostic is told in rendered words, each
    /// on one line; a degraded log by the number of its kinds of failure.
    pub open spec fn is_of(self, event: ProjectLogEvent, rendered: RenderedDiagnostic) -> bool {
        match event {
            ProjectLogEvent::RunStarted => self is RunStarted,
            ProjectLogEvent::CancellationRequested { confirmed, total } => self == (
            Self::CancellationRequested { confirmed, total }),
            ProjectLogEvent::PhaseStarted { phase, amount } => self == (Self::PhaseProgress {
                phase,
                amount: &amount,
            }),
            ProjectLogEvent::PhaseCompleted { phase, amount } => self == (Self::PhaseProgress {
                phase,
                amount: &amount,
            }),
            ProjectLogEvent::PhaseStopped { phase, outcome } => self == (Self::PhaseStopped {
                phase,
                outcome: &outcome,
            }),
            ProjectLogEvent::RunPlanResolved { plan } => self == (Self::RunPlanResolved {
                plan: &plan,
            }),
            ProjectLogEvent::RunPlanFinalized { database, result } => self == (
            Self::RunPlanFinalized { database: &database, result: &result }),
            ProjectLogEvent::TaskStarted { task } => self == (Self::TaskStarted { task: &task }),
            ProjectLogEvent::TaskFinished { task, attempts, outcome } => self == (Self::TaskFinished {
                task: &task,
                attempts,
                outcome: &outcome,
            }),
            ProjectLogEvent::TranslationFinished { result } => self == (Self::TranslationFinished {
                result: &result,
            }),
            ProjectLogEvent::RetrySummary { attempted, recovered, exhausted } => self == (
            Self::RetrySummary { attempted, recovered, exhausted }),
            ProjectLogEvent::PublicationStarted { output_root } => self == (Self::PublicationStarted {
                output_root: &output_root,
            }),
            ProjectLogEvent::PublicationFinished { result } => self == (Self::PublicationFinished {
                result: &result,
            }),
            ProjectLogEvent::LuaPrint { message } => self == (Self::LuaPrint { message: &message }),
            ProjectLogEvent::Diagnostic { .. } => {
                &&& self matches Self::Diagnostic { object, reason, help }
                &&& object@ == diagnostic::single_line(rendered.object@)
                &&& reason@ == diagnostic::single_line(rendered.reason@)
                &&& help@ == diagnostic::single_line(rendered.help@)
            },
            ProjectLogEvent::ProjectLogDegraded { health } => self matches Self::ProjectLogDegraded {
                issues,
            } && issues == health.failures@.len(),
            ProjectLogEvent::PerformanceCounters { snapshot } => self == (Self::PerformanceCounters {
                snapshot: &snapshot,
            }),
            ProjectLogEvent::RunFinished { result } => self == (Self::RunFinished { result: &result }),
        }
    }

    pub fn from_event(event: &'a ProjectLogEvent, rendered: &RenderedDiagnostic) -> (payload: Self)
        ensures
            payload.is_of(*event, *rendered),
    {
        match event {
            ProjectLogEvent::RunStarted => Self::RunStarted,
            ProjectLogEvent::CancellationRequested { confirmed, total } =>
            Self::CancellationRequested { confirmed: *confirmed, total: *total },
            ProjectLogEvent::PhaseStarted { phase, amount } => Self::PhaseProgress {
                phase: *phase,
                amount,
            },
            ProjectLogEvent::PhaseCompleted { phase, amount } => Self::PhaseProgress {
                phase: *phase,
                amount,
            },
            ProjectLogEvent::PhaseStopped { phase, outcome } => Self::PhaseStopped {
                phase: *phase,
                outcome,
            },
            ProjectLogEvent::RunPlanResolved { plan } => Self::RunPlanResolved { plan },
            ProjectLogEvent::RunPlanFinalized { database, result } => Self::RunPlanFinalized {
                database,
                result,
            },
            ProjectLogEvent::TaskStarted { task } => Self::TaskStarted { task },
            ProjectLogEvent::TaskFinished { task, attempts, outcome } => Self::TaskFinished {
                task,
                attempts: *attempts,
                outcome,
            },
            ProjectLogEvent::TranslationFinished { result } => Self::TranslationFinished { result },
            ProjectLogEvent::RetrySummary { attempted, recovered, exhausted } => Self::RetrySummary {
                attempted: *attempted,
                recovered: *recovered,
                exhausted: *exhausted,
            },
            ProjectLogEvent::PublicationStarted { output_root } => Self::PublicationStarted {
                output_root,
            },
            ProjectLogEvent::PublicationFinished { result } => Self::PublicationFinished { result },
            ProjectLogEvent::LuaPrint { message } => Self::LuaPrint { message },
            ProjectLogEvent::Diagnostic { .. } => Self::Diagnostic {
                object: SafeText::new(rendered.object.as_str()),
                reason: SafeText::new(rendered.reason.as_str()),
                help: SafeText::new(rendered.help.as_str()),
            },
            ProjectLogEvent::ProjectLogDegraded { health } => Self::ProjectLogDegraded {
                issues: health.failures.len() as u64,
            },
            ProjectLogEvent::PerformanceCounters { snapshot } => Self::PerformanceCounters { snapshot },
            ProjectLogEvent::RunFinished { result } => Self::RunFinished { result },
        }
    }
}

/// The words of a diagnostic event, on one line.
pub open spec fn diagnostic_words(rendered: RenderedDiagnostic) -> Seq<char> {
    rendered.object@ + ": "@ + rendered.reason@ + " "@ + rendered.help@
}

/// The words to show for a message that is told by a rendered diagnostic; for every other
/// message the reader's language has words of its own.
pub fn diagnostic_message(message: &UiMessage, rendered: &RenderedDiagnostic) -> (words: Option<String>)
    ensures
        match words {
            Some(words) => *message == UiMessage::LogDiagnostic && words@ == diagnostic_words(
                *rendered,
            ),
            None => *message != UiMessage::LogDiagnostic,
        },
{
    match message {
        UiMessage::LogDiagnostic => Some(
            diagnostic_line(
                rendered.object.as_str(),
                rendered.reason.as_str(),
                rendered.help.as_str(),
            ),
        ),
        _ => None,
    }
}

/// The line of a record: its JSON text and a line feed.
pub fn record_line(json: Vec<u8>) -> (line: Vec<u8>)
    ensures
        line@ == json@.push(10),
{
    let mut line = json;
    line.push(10);
    line
}

} // verus!
