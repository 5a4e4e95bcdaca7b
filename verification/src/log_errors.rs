//! How refused events and refused endings are told.

use vstd::prelude::*;
use vstd::string::*;
use crate::diagnostic::{
    Diagnostic, DiagnosticReport, ObservabilityComponent, ObservabilityContractViolation,
    ObservabilityEventCode, ObservabilityIssue, ObservabilityProjectLogPhase, StateEffect,
};
use crate::log_producer::{EmitError, FinishError};
use crate::text;
use crate::text::push_decimal;

verus! {

/// The report of a broken rule of the project log.
pub open spec fn is_contract_report(
    report: DiagnosticReport,
    violation: ObservabilityContractViolation,
) -> bool {
    report.is_single(
        StateEffect::Unchanged,
        Diagnostic::Observability(
            ObservabilityIssue::Contract {
                component: ObservabilityComponent::ProjectLog,
                violation,
            },
        ),
    )
}

/// Reports a broken rule of the project log. Nothing else changed.
pub fn project_log_contract_report(violation: ObservabilityContractViolation) -> (report:
    DiagnosticReport)
    ensures
        is_contract_report(report, violation),
{
    DiagnosticReport::new(
        StateEffect::Unchanged,
        Diagnostic::Observability(
            ObservabilityIssue::Contract {
                component: ObservabilityComponent::ProjectLog,
                violation,
            },
        ),
    )
}

fn ending_in(before: &str, number: u64) -> (message: String)
    ensures
        message@ == before@ + text::decimal(number as nat),
{
    let mut message = String::from_str(before);
    push_decimal(&mut message, number);
    message
}

fn numbered(before: &str, number: u64, after: &str) -> (message: String)
    ensures
        message@ == before@ + text::decimal(number as nat) + after@,
{
    let mut message = String::from_str(before);
    push_decimal(&mut message, number);
    message.append(after);
    message
}

impl EmitError {
    /// The text of the refusal.
    pub open spec fn text(self) -> Seq<char> {
        match self {
            Self::Closed => "项目日志生产者已经关闭"@,
            Self::RuntimeManagedEvent { event } => "事件 "@ + event.name()@
                + " 只能由项目日志运行时建立"@,
            Self::UnknownDiagnostic(id) => "事件引用了未知诊断 occurrence "@ + text::decimal(
                id.number() as nat,
            ),
            Self::InvalidDiagnosticScope(id) => "事件引用的诊断 occurrence "@ + text::decimal(
                id.number() as nat,
            ) + " 不属于该终态 scope"@,
            Self::InvalidPhaseTransition(phase) => "阶段 "@ + phase.name()@ + " 的状态转换无效"@,
            Self::DuplicateRunPlan => "运行计划已经解析"@,
            Self::InvalidRunPlanTransition => "运行计划收尾状态转换无效"@,
            Self::RunPlanCommandMismatch => "运行计划类型与命令不一致"@,
            Self::InvalidRunPlanTransaction => "运行计划事务终态不一致"@,
            Self::DuplicateTask(ordinal) => "任务 "@ + text::decimal(ordinal as nat) + " 重复开始"@,
            Self::InvalidTaskTransition(ordinal) => "任务 "@ + text::decimal(ordinal as nat)
                + " 的终态转换无效"@,
            Self::InconsistentTaskTotal => "任务事件的 total 不一致"@,
            Self::DuplicateTranslationFinished => "translation.finished 只能出现一次"@,
            Self::DuplicatePublication => "发布已经开始"@,
            Self::InvalidPublicationTransition => "发布终态转换无效"@,
            Self::UnfinishedTasks => "仍有已开始但没有终态的任务"@,
            Self::TaskSummaryMismatch => "任务事件与翻译汇总不一致"@,
            Self::TaskCountDoesNotFit => "任务数量无法表示为 u64"@,
            Self::EngineSummaryMismatch => "汇总类型与项目引擎不一致"@,
            Self::InvalidRetrySummary { attempted, recovered, exhausted } => "重试汇总不一致：attempted="@
                + text::decimal(attempted as nat) + ", recovered="@ + text::decimal(recovered as nat)
                + ", exhausted="@ + text::decimal(exhausted as nat),
            Self::InvalidCancellationCount { confirmed, total } => "取消汇总 confirmed="@
                + text::decimal(confirmed as nat) + " 大于 total="@ + text::decimal(total as nat),
            Self::DiagnosticRequiresFailedTranslation => "已有运行计划诊断时不能使用无诊断引用的 NotStarted"@,
            Self::PlanningFailureStartedTasks => "规划失败必须把全部计划任务计入 not_started"@,
            Self::OccurrenceIdExhausted => "诊断 occurrence ID 已耗尽"@,
            Self::SequenceExhausted => "项目日志 sequence 已耗尽"@,
        }
    }

    /// Renders the refusal.
    pub fn message(self) -> (message: String)
        ensures
            message@ == self.text(),
    {
        match self {
            Self::Closed => String::from_str("项目日志生产者已经关闭"),
            Self::RuntimeManagedEvent { event } => String::from_str("事件 ").concat(
                event.as_str(),
            ).concat(" 只能由项目日志运行时建立"),
            Self::UnknownDiagnostic(id) => ending_in("事件引用了未知诊断 occurrence ", id.get()),
            Self::InvalidDiagnosticScope(id) => numbered(
                "事件引用的诊断 occurrence ",
                id.get(),
                " 不属于该终态 scope",
            ),
            Self::InvalidPhaseTransition(phase) => String::from_str("阶段 ").concat(
                phase.as_str(),
            ).concat(" 的状态转换无效"),
            Self::DuplicateRunPlan => String::from_str("运行计划已经解析"),
            Self::InvalidRunPlanTransition => String::from_str("运行计划收尾状态转换无效"),
            Self::RunPlanCommandMismatch => String::from_str("运行计划类型与命令不一致"),
            Self::InvalidRunPlanTransaction => String::from_str("运行计划事务终态不一致"),
            Self::DuplicateTask(ordinal) => numbered("任务 ", ordinal, " 重复开始"),
            Self::InvalidTaskTransition(ordinal) => numbered("任务 ", ordinal, " 的终态转换无效"),
            Self::InconsistentTaskTotal => String::from_str("任务事件的 total 不一致"),
            Self::DuplicateTranslationFinished => String::from_str(
                "translation.finished 只能出现一次",
            ),
            Self::DuplicatePublication => String::from_str("发布已经开始"),
            Self::InvalidPublicationTransition => String::from_str("发布终态转换无效"),
            Self::UnfinishedTasks => String::from_str("仍有已开始但没有终态的任务"),
            Self::TaskSummaryMismatch => String::from_str("任务事件与翻译汇总不一致"),
            Self::TaskCountDoesNotFit => String::from_str("任务数量无法表示为 u64"),
            Self::EngineSummaryMismatch => String::from_str("汇总类型与项目引擎不一致"),
            Self::InvalidRetrySummary { attempted, recovered, exhausted } => {
                let mut message = numbered("重试汇总不一致：attempted=", attempted, ", recovered=");
                push_decimal(&mut message, recovered);
                message.append(", exhausted=");
                push_decimal(&mut message, exhausted);
                message
            },
            Self::InvalidCancellationCount { confirmed, total } => {
                let mut message = numbered("取消汇总 confirmed=", confirmed, " 大于 total=");
                push_decimal(&mut message, total);
                message
            },
            Self::DiagnosticRequiresFailedTranslation => String::from_str(
                "已有运行计划诊断时不能使用无诊断引用的 NotStarted",
            ),
            Self::PlanningFailureStartedTasks => String::from_str(
                "规划失败必须把全部计划任务计入 not_started",
            ),
            Self::OccurrenceIdExhausted => String::from_str("诊断 occurrence ID 已耗尽"),
            Self::SequenceExhausted => String::from_str("项目日志 sequence 已耗尽"),
        }
    }

    /// The rule that a refused event broke.
    pub open spec fn broken_rule(self) -> ObservabilityContractViolation {
        match self {
            Self::Closed => ObservabilityContractViolation::ProducerClosed,
            Self::RuntimeManagedEvent { event } => ObservabilityContractViolation::RuntimeManagedEvent {
                event: vstd::std_specs::convert::FromSpec::from_spec(event),
            },
            Self::UnknownDiagnostic(id) => ObservabilityContractViolation::UnknownDiagnostic {
                occurrence_id: id.number(),
            },
            Self::InvalidDiagnosticScope(id) => ObservabilityContractViolation::InvalidTerminalDiagnostic {
                occurrence_id: id.number(),
            },
            Self::InvalidPhaseTransition(phase) => ObservabilityContractViolation::InvalidPhaseTransition {
                phase: vstd::std_specs::convert::FromSpec::from_spec(phase),
            },
            Self::DuplicateRunPlan => ObservabilityContractViolation::DuplicateRunPlan,
            Self::InvalidRunPlanTransition => ObservabilityContractViolation::InvalidRunPlanTransition,
            Self::RunPlanCommandMismatch => ObservabilityContractViolation::RunPlanCommandMismatch,
            Self::InvalidRunPlanTransaction => ObservabilityContractViolation::InvalidRunPlanTransaction,
            Self::DuplicateTask(ordinal) => ObservabilityContractViolation::DuplicateTask { ordinal },
            Self::InvalidTaskTransition(ordinal) => ObservabilityContractViolation::InvalidTaskTransition {
                ordinal,
            },
            Self::InconsistentTaskTotal => ObservabilityContractViolation::InconsistentTaskTotal,
            Self::DuplicateTranslationFinished => ObservabilityContractViolation::DuplicateTranslationFinished,
            Self::DuplicatePublication => ObservabilityContractViolation::DuplicatePublication,
            Self::InvalidPublicationTransition => ObservabilityContractViolation::InvalidPublicationTransition,
            Self::UnfinishedTasks => ObservabilityContractViolation::UnfinishedTasks,
            Self::TaskSummaryMismatch => ObservabilityContractViolation::TaskSummaryMismatch,
            Self::TaskCountDoesNotFit => ObservabilityContractViolation::TaskCountDoesNotFit,
            Self::EngineSummaryMismatch => ObservabilityContractViolation::EngineSummaryMismatch,
            Self::InvalidRetrySummary {
                attempted,
                recovered,
                exhausted,
            } => ObservabilityContractViolation::InvalidRetrySummary {
                attempted,
                recovered,
                exhausted,
            },
            Self::InvalidCancellationCount {
                confirmed,
                total,
            } => ObservabilityContractViolation::InvalidCancellationCount { confirmed, total },
            Self::DiagnosticRequiresFailedTranslation => ObservabilityContractViolation::DiagnosticRequiresFailedTranslation,
            Self::PlanningFailureStartedTasks => ObservabilityContractViolation::PlanningFailureStartedTasks,
            Self::OccurrenceIdExhausted => ObservabilityContractViolation::OccurrenceIdExhausted,
            Self::SequenceExhausted => ObservabilityContractViolation::SequenceExhausted,
        }
    }

    /// Reports a refused event.
    pub fn diagnostic_report(self) -> (report: DiagnosticReport)
        ensures
            is_contract_report(report, self.broken_rule()),
    {
        let violation = match self {
            Self::Closed => ObservabilityContractViolation::ProducerClosed,
            Self::RuntimeManagedEvent { event } => ObservabilityContractViolation::RuntimeManagedEvent {
                event: ObservabilityEventCode::from(event),
            },
            Self::UnknownDiagnostic(id) => ObservabilityContractViolation::UnknownDiagnostic {
                occurrence_id: id.get(),
            },
            Self::InvalidDiagnosticScope(id) => ObservabilityContractViolation::InvalidTerminalDiagnostic {
                occurrence_id: id.get(),
            },
            Self::InvalidPhaseTransition(phase) => ObservabilityContractViolation::InvalidPhaseTransition {
                phase: ObservabilityProjectLogPhase::from(phase),
            },
            Self::DuplicateRunPlan => ObservabilityContractViolation::DuplicateRunPlan,
            Self::InvalidRunPlanTransition => ObservabilityContractViolation::InvalidRunPlanTransition,
            Self::RunPlanCommandMismatch => ObservabilityContractViolation::RunPlanCommandMismatch,
            Self::InvalidRunPlanTransaction => ObservabilityContractViolation::InvalidRunPlanTransaction,
            Self::DuplicateTask(ordinal) => ObservabilityContractViolation::DuplicateTask { ordinal },
            Self::InvalidTaskTransition(ordinal) => ObservabilityContractViolation::InvalidTaskTransition {
                ordinal,
            },
            Self::InconsistentTaskTotal => ObservabilityContractViolation::InconsistentTaskTotal,
            Self::DuplicateTranslationFinished => ObservabilityContractViolation::DuplicateTranslationFinished,
            Self::DuplicatePublication => ObservabilityContractViolation::DuplicatePublication,
            Self::InvalidPublicationTransition => ObservabilityContractViolation::InvalidPublicationTransition,
            Self::UnfinishedTasks => ObservabilityContractViolation::UnfinishedTasks,
            Self::TaskSummaryMismatch => ObservabilityContractViolation::TaskSummaryMismatch,
            Self::TaskCountDoesNotFit => ObservabilityContractViolation::TaskCountDoesNotFit,
            Self::EngineSummaryMismatch => ObservabilityContractViolation::EngineSummaryMismatch,
            Self::InvalidRetrySummary {
                attempted,
                recovered,
                exhausted,
            } => ObservabilityContractViolation::InvalidRetrySummary {
                attempted,
                recovered,
                exhausted,
            },
            Self::InvalidCancellationCount {
                confirmed,
                total,
            } => ObservabilityContractViolation::InvalidCancellationCount { confirmed, total },
            Self::DiagnosticRequiresFailedTranslation => ObservabilityContractViolation::DiagnosticRequiresFailedTranslation,
            Self::PlanningFailureStartedTasks => ObservabilityContractViolation::PlanningFailureStartedTasks,
            Self::OccurrenceIdExhausted => ObservabilityContractViolation::OccurrenceIdExhausted,
            Self::SequenceExhausted => ObservabilityContractViolation::SequenceExhausted,
        };
        project_log_contract_report(violation)
    }
}

impl FinishError {
    /// The text of the refusal.
    pub open spec fn text(self) -> Seq<char> {
        match self {
            Self::AlreadyFinished => "项目日志已经收尾"@,
            Self::ActivePhase => "仍有 started 阶段没有 completed 或 stopped"@,
            Self::UnfinishedTasks => "仍有已开始任务没有 task.finished"@,
            Self::UnfinalizedRunPlan => "运行计划已解析但尚未收尾"@,
            Self::MissingTranslationFinished => "Translate 运行缺少唯一 translation.finished"@,
            Self::MissingPublicationFinished => "已开始的发布缺少 publication.finished"@,
            Self::UnknownDiagnostic(id) => "运行终态引用了未知诊断 occurrence "@ + text::decimal(
                id.number() as nat,
            ),
            Self::InvalidTerminalDiagnostic(id) => "诊断 occurrence "@ + text::decimal(
                id.number() as nat,
            ) + " 不是待写终端诊断"@,
            Self::ChannelClosed => "项目日志 channel 已关闭"@,
        }
    }

    /// Renders the refusal.
    pub fn message(self) -> (message: String)
        ensures
            message@ == self.text(),
    {
        match self {
            Self::AlreadyFinished => String::from_str("项目日志已经收尾"),
            Self::ActivePhase => String::from_str("仍有 started 阶段没有 completed 或 stopped"),
            Self::UnfinishedTasks => String::from_str("仍有已开始任务没有 task.finished"),
            Self::UnfinalizedRunPlan => String::from_str("运行计划已解析但尚未收尾"),
            Self::MissingTranslationFinished => String::from_str(
                "Translate 运行缺少唯一 translation.finished",
            ),
            Self::MissingPublicationFinished => String::from_str(
                "已开始的发布缺少 publication.finished",
            ),
            Self::UnknownDiagnostic(id) => ending_in("运行终态引用了未知诊断 occurrence ", id.get()),
            Self::InvalidTerminalDiagnostic(id) => numbered(
                "诊断 occurrence ",
                id.get(),
                " 不是待写终端诊断",
            ),
            Self::ChannelClosed => String::from_str("项目日志 channel 已关闭"),
        }
    }

    /// The rule that a refused ending broke.
    pub open spec fn broken_rule(self) -> ObservabilityContractViolation {
        match self {
            Self::AlreadyFinished => ObservabilityContractViolation::AlreadyFinished,
            Self::ActivePhase => ObservabilityContractViolation::ActivePhase,
            Self::UnfinishedTasks => ObservabilityContractViolation::UnfinishedTasks,
            Self::UnfinalizedRunPlan => ObservabilityContractViolation::UnfinalizedRunPlan,
            Self::MissingTranslationFinished => ObservabilityContractViolation::MissingTranslationFinished,
            Self::MissingPublicationFinished => ObservabilityContractViolation::MissingPublicationFinished,
            Self::UnknownDiagnostic(id) => ObservabilityContractViolation::UnknownDiagnostic {
                occurrence_id: id.number(),
            },
            Self::InvalidTerminalDiagnostic(id) => ObservabilityContractViolation::InvalidTerminalDiagnostic {
                occurrence_id: id.number(),
            },
            Self::ChannelClosed => ObservabilityContractViolation::ChannelClosed,
        }
    }

    /// Reports a refused ending.
    pub fn diagnostic_report(self) -> (report: DiagnosticReport)
        ensures
            is_contract_report(report, self.broken_rule()),
    {
        let violation = match self {
            Self::AlreadyFinished => ObservabilityContractViolation::AlreadyFinished,
            Self::ActivePhase => ObservabilityContractViolation::ActivePhase,
            Self::UnfinishedTasks => ObservabilityContractViolation::UnfinishedTasks,
            Self::UnfinalizedRunPlan => ObservabilityContractViolation::UnfinalizedRunPlan,
            Self::MissingTranslationFinished => ObservabilityContractViolation::MissingTranslationFinished,
            Self::MissingPublicationFinished => ObservabilityContractViolation::MissingPublicationFinished,
            Self::UnknownDiagnostic(id) => ObservabilityContractViolation::UnknownDiagnostic {
                occurrence_id: id.get(),
            },
            Self::InvalidTerminalDiagnostic(id) => ObservabilityContractViolation::InvalidTerminalDiagnostic {
                occurrence_id: id.get(),
            },
            Self::ChannelClosed => ObservabilityContractViolation::ChannelClosed,
        };
        project_log_contract_report(violation)
    }
}

/// Why a terminal diagnostic could not be prepared.
#[derive(Clone, Copy, Debug, PartialEq, Eq, Structural)]
pub enum PrepareTerminalDiagnosticError {
    Closed,
    OccurrenceIdExhausted,
}

impl PrepareTerminalDiagnosticError {
    pub open spec fn text(self) -> &'static str {
        match self {
            Self::Closed => "项目日志生产者已经关闭",
            Self::OccurrenceIdExhausted => "诊断 occurrence ID 已耗尽",
        }
    }

    pub fn message(self) -> (message: &'static str)
        ensures
            message == self.text(),
    {
        match self {
            Self::Closed => "项目日志生产者已经关闭",
            Self::OccurrenceIdExhausted => "诊断 occurrence ID 已耗尽",
        }
    }

    pub open spec fn broken_rule(self) -> ObservabilityContractViolation {
        match self {
            Self::Closed => ObservabilityContractViolation::ProducerClosed,
            Self::OccurrenceIdExhausted => ObservabilityContractViolation::OccurrenceIdExhausted,
        }
    }

    pub fn diagnostic_report(self) -> (report: DiagnosticReport)
        ensures
            is_contract_report(report, self.broken_rule()),
    {
        project_log_contract_report(
            match self {
                Self::Closed => ObservabilityContractViolation::ProducerClosed,
                Self::OccurrenceIdExhausted => ObservabilityContractViolation::OccurrenceIdExhausted,
            },
        )
    }
}

} // verus!
