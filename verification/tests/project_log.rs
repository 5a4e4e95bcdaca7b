use std::collections::VecDeque;

use att_runtime::diagnostic::{
    Diagnostic, DiagnosticReport, IoError, ObservabilityComponent, ObservabilityEventCode,
    ObservabilityFailureCount, ObservabilityIssue, RuntimeComponent, RuntimeIssue,
    RuntimeOperation, SafeIoKind, SafePath, StateEffect,
};
use att_runtime::log_event::{
    diagnostic_line, DiagnosticOccurrenceId, DiagnosticScope, GenericTranslationSummary,
    PhaseStopOutcome, ProjectLogAmount, ProjectLogCode, ProjectLogCommand, ProjectLogContext,
    ProjectLogEngine, ProjectLogEvent, ProjectLogFailureCount, ProjectLogFailureKey,
    ProjectLogHealthSnapshot, ProjectLogLevel, ProjectLogLocale, ProjectLogPhase,
    PublicationFinished, ResolvedRunPlan, RunFinished, RunPlanFinalization,
    RunPlanTransactionState, RunPlanValueSource, TaskCounterInvariantError, TaskFinishedOutcome,
    TaskPosition, TranslationEngineSummary, TranslationFinished, TranslationTaskCounters, UiLocale,
    UiMessage,
};
use att_runtime::log_health::{ProjectLogHealth, ProjectLogHealthCursor};
use att_runtime::log_loop::{LoopReply, LoopRequest, WriterLoop};
use att_runtime::log_payload::{
    diagnostic_message, record_line, ProjectLogPayloadRef, RenderedDiagnostic,
};
use att_runtime::log_producer::{EmitDisposition, EmitError, FinishError};
use att_runtime::log_runtime::{
    LogAccount, ProjectLogger, QueueItem, Submission, BEST_EFFORT_IN_FLIGHT,
};
use att_runtime::log_session::{
    creation_failure_report, join_worker, start_failure_report, ProjectLogRuntime,
    ProjectLogShutdown,
};
use att_runtime::log_writer::{
    after_event, discard, queue_closed, stopped_by_panic, FlushAttempt, PersistAttempt,
    PersistDisposition, PersistStep, ProjectLogRecord, RecordBuildError, TerminalSequence,
    WriterAction, WriterState,
};
use att_runtime::performance::RunPerformanceCounters;
use att_runtime::run_id::RunId;

fn context(command: ProjectLogCommand) -> ProjectLogContext {
    ProjectLogContext::new(
        UiLocale::English,
        ProjectLogEngine::Generic,
        "project-a",
        command,
    )
    .expect("测试 context 必须有效")
}

fn diagnostic_report(effect: StateEffect) -> DiagnosticReport {
    DiagnosticReport::new(
        effect,
        Diagnostic::Runtime(RuntimeIssue::ExecutorClosed {
            component: RuntimeComponent::SqliteExecutor,
            operation: RuntimeOperation::DetectAvailableParallelism,
        }),
    )
}

fn run_name() -> String {
    RunId::from_sequence(1).expect("序号合法").name()
}

fn io_error(kind: SafeIoKind, raw_os_code: Option<i32>) -> IoError {
    IoError {
        kind,
        raw_os_code,
        text: "sentinel".to_owned(),
    }
}

/// What goes wrong while records are written; calls count from one.
#[derive(Clone, Copy, Default)]
struct Faults {
    fail_encode_at: Option<usize>,
    panic_encode_at: Option<usize>,
    fail_write_at: Option<usize>,
    fail_flush: bool,
    fail_sync: bool,
}

/// A log whose queue is worked off only when the test says so.
struct Bench {
    account: LogAccount,
    runtime: ProjectLogRuntime,
    writer: WriterState,
    queue: VecDeque<QueueItem>,
    open: bool,
    faults: Faults,
    encode_calls: usize,
    write_calls: usize,
    written: Vec<ProjectLogRecord>,
}

impl Bench {
    fn start(command: ProjectLogCommand, faults: Faults) -> Self {
        Self::start_with(command, faults, diagnostic_report(StateEffect::OutcomeUnknown))
    }

    fn start_with(
        command: ProjectLogCommand,
        faults: Faults,
        drop_report: DiagnosticReport,
    ) -> Self {
        Self::start_logger(command, faults, ProjectLogger::new(context(command)), drop_report)
    }

    fn start_logger(
        command: ProjectLogCommand,
        faults: Faults,
        logger: ProjectLogger,
        drop_report: DiagnosticReport,
    ) -> Self {
        let mut account = LogAccount::new();
        let first = logger
            .run_started(&mut account, 0)
            .expect("首个事件必须有编号");
        let mut queue = VecDeque::new();
        queue.push_back(QueueItem::Event(first));
        Bench {
            account,
            runtime: ProjectLogRuntime::new(logger, drop_report),
            writer: WriterState::new(context(command), run_name(), None),
            queue,
            open: true,
            faults,
            encode_calls: 0,
            write_calls: 0,
            written: Vec::new(),
        }
    }

    fn emit(&mut self, event: ProjectLogEvent) -> Result<EmitDisposition, EmitError> {
        match self
            .runtime
            .logger_mut()
            .emit(&mut self.account, 0, event)?
        {
            Submission::Settled(disposition) => Ok(disposition),
            Submission::Send(queued) => {
                let undelivered = if self.open {
                    self.queue.push_back(QueueItem::Event(queued));
                    None
                } else {
                    Some(queued)
                };
                self.runtime
                    .logger_mut()
                    .sent(&mut self.account, undelivered)
            }
        }
    }

    fn record_diagnostic(
        &mut self,
        scope: DiagnosticScope,
        report: DiagnosticReport,
    ) -> Result<DiagnosticOccurrenceId, EmitError> {
        let queued = self
            .runtime
            .logger_mut()
            .record_diagnostic(&mut self.account, 0, scope, report)?;
        let id = match &queued.event {
            ProjectLogEvent::Diagnostic { occurrence } => occurrence.id(),
            _ => panic!("诊断事件必须携带 occurrence"),
        };
        if self.open {
            self.queue.push_back(QueueItem::Event(queued));
        }
        self.runtime
            .logger_mut()
            .diagnostic_sent(&mut self.account, id, scope, self.open)
    }

    fn persist(&mut self, sequence: u64, event: ProjectLogEvent) -> PersistDisposition {
        let code = event.code();
        let record = match self
            .writer
            .begin_persist(&mut self.account, 0, sequence, event)
        {
            PersistStep::Settled(disposition) => return disposition,
            PersistStep::Encode(record) => record,
        };
        self.encode_calls += 1;
        let attempt = if self.faults.panic_encode_at == Some(self.encode_calls) {
            PersistAttempt::Panicked
        } else if self.faults.fail_encode_at == Some(self.encode_calls) {
            PersistAttempt::NotEncoded
        } else {
            self.write_calls += 1;
            if self.faults.fail_write_at == Some(self.write_calls) {
                PersistAttempt::NotWritten(io_error(SafeIoKind::PermissionDenied, Some(5)))
            } else {
                self.written.push(record);
                PersistAttempt::Written
            }
        };
        self.writer.end_persist(&mut self.account, code, attempt)
    }

    /// Works off the queue as the writer does.
    fn drain(&mut self) {
        while let Some(item) = self.queue.pop_front() {
            match item {
                QueueItem::Event(queued) => {
                    let permit = queued.permit;
                    let disposition = self.persist(queued.sequence, queued.event);
                    match after_event(&mut self.account, permit, disposition) {
                        WriterAction::Receive => {}
                        WriterAction::DiscardPending => self.discard_all(),
                        WriterAction::Stop => {
                            self.open = false;
                            self.discard_all();
                            stopped_by_panic(&mut self.account);
                            return;
                        }
                    }
                }
                QueueItem::Finalize(request) => {
                    let degraded = self.account.health();
                    let mut sequence = TerminalSequence::new(request, degraded);
                    while let Some((number, event)) = sequence.next_event(&mut self.account) {
                        if self.persist(number, event) == PersistDisposition::Panicked {
                            sequence.abandon(&mut self.account);
                            self.open = false;
                            return;
                        }
                    }
                    let flushed = if self.faults.fail_flush {
                        Err(io_error(SafeIoKind::BrokenPipe, None))
                    } else {
                        Ok(())
                    };
                    let synced = if self.faults.fail_sync {
                        Err(io_error(SafeIoKind::PermissionDenied, None))
                    } else {
                        Ok(())
                    };
                    assert!(self.writer.flush_and_sync(
                        &mut self.account,
                        FlushAttempt::Ended { flushed, synced }
                    ));
                    self.open = false;
                }
            }
        }
    }

    fn discard_all(&mut self) {
        while let Some(item) = self.queue.pop_front() {
            discard(item, &mut self.account);
        }
    }

    fn finish(
        mut self,
        result: RunFinished,
        terminal: Vec<att_runtime::log_terminal::PreparedTerminalDiagnostic>,
    ) -> (Result<ProjectLogShutdown, FinishError>, Self) {
        let performance = RunPerformanceCounters::new().snapshot();
        match self.runtime.finish(result, terminal, performance) {
            Err(error) => {
                self.drop_unfinished();
                (Err(error), self)
            }
            Ok(request) => {
                let undelivered = if self.open {
                    self.queue.push_back(QueueItem::Finalize(request));
                    None
                } else {
                    Some(request)
                };
                let sent = self.runtime.finish_sent(&mut self.account, undelivered);
                self.drain();
                let shutdown = join_worker(&mut self.account, false);
                (sent.map(|()| shutdown), self)
            }
        }
    }

    /// What letting go of the runtime does.
    fn drop_unfinished(&mut self) {
        let performance = RunPerformanceCounters::new().snapshot();
        if let Some(request) = self
            .runtime
            .close_unfinished(&mut self.account, performance)
        {
            if self.open {
                self.queue.push_back(QueueItem::Finalize(request));
            } else {
                att_runtime::log_session::lose_request(&request, &mut self.account);
            }
        }
        self.drain();
    }

    fn count(&self, key: &ProjectLogFailureKey) -> u64 {
        self.account.health().count(key)
    }

    fn codes(&self) -> Vec<&'static str> {
        self.written.iter().map(|record| record.code.as_str()).collect()
    }
}

#[test]
fn record_wire_has_exact_top_level_and_derives_redundant_fields() {
    let record = ProjectLogRecord::new(
        0,
        1,
        &run_name(),
        &context(ProjectLogCommand::Extract),
        ProjectLogEvent::RunStarted,
    )
    .expect("测试记录必须可建");
    assert_eq!(record.timestamp, "1970-01-01T00:00:00Z");
    assert_eq!(record.sequence, 1);
    assert_eq!(record.run_id, "run-000001");
    assert_eq!(record.level, ProjectLogLevel::Info);
    assert_eq!(record.code.as_str(), "run.started");
    assert_eq!(record.context.locale(), ProjectLogLocale::English);
    assert_eq!(record.context.engine(), ProjectLogEngine::Generic);
    assert_eq!(record.context.project(), "project-a");
    assert_eq!(record.context.command().as_str(), "extract");
    assert_eq!(
        record.message,
        UiMessage::LogRunStarted { command: "extract" }
    );
    let nothing = RenderedDiagnostic {
        object: String::new(),
        reason: String::new(),
        help: String::new(),
    };
    assert!(matches!(
        ProjectLogPayloadRef::from_event(&record.payload, &nothing),
        ProjectLogPayloadRef::RunStarted
    ));
    assert_eq!(record_line(b"{}".to_vec()), b"{}\n".to_vec());
}

#[test]
fn records_need_a_number_and_a_moment_that_has_a_text() {
    let build = |moment: i128, number: u64| {
        ProjectLogRecord::new(
            moment,
            number,
            "run-000001",
            &context(ProjectLogCommand::Extract),
            ProjectLogEvent::RunStarted,
        )
    };
    assert_eq!(build(0, 0).err(), Some(RecordBuildError));
    assert_eq!(build(i128::MAX, 1).err(), Some(RecordBuildError));
    assert_eq!(
        build(253_402_300_800_000_000_000, 1).err(),
        Some(RecordBuildError)
    );
    assert_eq!(
        build(1_234_567_890_123_456_789, 1)
            .expect("有效时间")
            .timestamp,
        "2009-02-13T23:31:30.123456789Z"
    );
    assert_eq!(
        build(-62_167_219_200_000_000_000, 1)
            .expect("公元零年")
            .timestamp,
        "0000-01-01T00:00:00Z"
    );
}

#[test]
fn diagnostic_payload_contains_only_readable_guidance() {
    let mut bench = Bench::start(ProjectLogCommand::Translate, Faults::default());
    bench
        .record_diagnostic(
            DiagnosticScope::RunPlan,
            diagnostic_report(StateEffect::Unchanged),
        )
        .expect("诊断必须记录");
    bench.drain();
    let record = &bench.written[1];
    assert_eq!(record.code.as_str(), "diagnostic.run_plan");
    let rendered = RenderedDiagnostic {
        object: "对象\r\n一".to_owned(),
        reason: "原因".to_owned(),
        help: "帮助".to_owned(),
    };
    match ProjectLogPayloadRef::from_event(&record.payload, &rendered) {
        ProjectLogPayloadRef::Diagnostic {
            object,
            reason,
            help,
        } => {
            assert!(!object.as_str().contains('\n'));
            assert_eq!(reason.as_str(), "原因");
            assert_eq!(help.as_str(), "帮助");
        }
        _ => panic!("诊断 payload 只有可读字段"),
    }
    assert_eq!(diagnostic_line("a", "b", "c"), "a: b c");
    let rendered = RenderedDiagnostic {
        object: "o".to_owned(),
        reason: "r".to_owned(),
        help: "h".to_owned(),
    };
    assert_eq!(
        diagnostic_message(&UiMessage::LogDiagnostic, &rendered),
        Some("o: r h".to_owned())
    );
    assert_eq!(
        diagnostic_message(&UiMessage::LogRetrySummary { count: 1 }, &rendered),
        None
    );
}

#[test]
fn typed_result_controls_level_and_run_plan_diagnostic_is_always_error() {
    let diagnostic = DiagnosticOccurrenceId::new(1).expect("非零 ID");
    assert_eq!(
        ProjectLogEvent::TaskFinished {
            task: TaskPosition::new(1, 1).expect("任务位置必须有效"),
            attempts: 1,
            outcome: TaskFinishedOutcome::Failed { diagnostic },
        }
        .level(),
        ProjectLogLevel::Error
    );
    assert_eq!(
        ProjectLogEvent::TaskFinished {
            task: TaskPosition::new(1, 1).expect("任务位置必须有效"),
            attempts: 1,
            outcome: TaskFinishedOutcome::NotCommittedAfterEarlierFailure { diagnostic },
        }
        .level(),
        ProjectLogLevel::Error
    );
    assert_eq!(
        ProjectLogEvent::TranslationFinished {
            result: TranslationFinished::Cancelled {
                tasks: TranslationTaskCounters::new(1, 1, 0, 0, 0, 0, 1, 0)
                    .expect("任务计数必须有效"),
                summary: None,
            },
        }
        .level(),
        ProjectLogLevel::Warn
    );
    assert_eq!(
        ProjectLogEvent::RunPlanFinalized {
            database: SafePath::new("D:/project.sqlite3"),
            result: RunPlanFinalization::OutcomeUnknown {
                transaction: RunPlanTransactionState::OutcomeUnknown,
                run_continues: false,
                diagnostic,
            },
        }
        .level(),
        ProjectLogLevel::Error
    );
    let mut account = LogAccount::new();
    let mut logger = ProjectLogger::new(context(ProjectLogCommand::Extract));
    let queued = logger
        .record_diagnostic(
            &mut account,
            0,
            DiagnosticScope::RunPlan,
            diagnostic_report(StateEffect::Unchanged),
        )
        .expect("诊断必须记录");
    assert_eq!(queued.event.level(), ProjectLogLevel::Error);
}

#[test]
fn task_counters_reject_both_broken_equations() {
    assert_eq!(
        TranslationTaskCounters::new(2, 1, 0, 0, 0, 0, 0, 1),
        Err(TaskCounterInvariantError::StartedBreakdown)
    );
    assert_eq!(
        TranslationTaskCounters::new(3, 1, 1, 0, 0, 0, 0, 1),
        Err(TaskCounterInvariantError::PlannedBreakdown)
    );
    assert!(TranslationTaskCounters::new(2, 1, 0, 1, 0, 0, 0, 1).is_ok());
}

fn counted(failure: ProjectLogFailureKey, count: u64) -> ProjectLogFailureCount {
    ProjectLogFailureCount {
        failure,
        count: ObservabilityFailureCount::exact(count),
    }
}

#[test]
fn health_counter_marks_overflow_as_at_least_without_panicking() {
    let mut health = ProjectLogHealth::resumed(
        ProjectLogFailureKey::WorkerPanicked,
        ObservabilityFailureCount::exact(u64::MAX),
    );

    health.record(ProjectLogFailureKey::WorkerPanicked);

    let snapshot = health.snapshot();
    let entry = snapshot
        .failures
        .iter()
        .find(|entry| entry.failure == ProjectLogFailureKey::WorkerPanicked)
        .expect("溢出的故障键必须保留");
    assert_eq!(
        entry.count,
        ObservabilityFailureCount::AtLeast { minimum: u64::MAX }
    );
    health.record(ProjectLogFailureKey::WorkerPanicked);
    assert_eq!(health.snapshot(), snapshot);
}

#[test]
fn counts_that_overflow_become_lower_bounds() {
    let count = ObservabilityFailureCount::exact(u64::MAX).increment();
    assert_eq!(
        count,
        ObservabilityFailureCount::AtLeast { minimum: u64::MAX }
    );
    assert_eq!(count.increment(), count);
    assert_eq!(
        ObservabilityFailureCount::exact(2).increment(),
        ObservabilityFailureCount::exact(3)
    );
}

#[test]
fn health_cursor_returns_only_new_counts() {
    let channel = || ProjectLogFailureKey::ChannelClosed { code: None };
    let serialize = || ProjectLogFailureKey::Serialize {
        path: None,
        code: ProjectLogCode::TaskFinished,
    };
    let mut cursor = ProjectLogHealthCursor::new();
    let first = ProjectLogHealthSnapshot {
        failures: vec![counted(channel(), 2), counted(serialize(), 1)],
    };
    assert_eq!(
        cursor.consume(&first),
        vec![counted(channel(), 2), counted(serialize(), 1)]
    );
    assert!(cursor.consume(&first).is_empty());
    let second = ProjectLogHealthSnapshot {
        failures: vec![
            counted(channel(), 5),
            counted(serialize(), 1),
            counted(ProjectLogFailureKey::WorkerPanicked, 1),
        ],
    };
    assert_eq!(
        cursor.consume(&second),
        vec![
            counted(channel(), 3),
            counted(ProjectLogFailureKey::WorkerPanicked, 1),
        ]
    );
}

#[test]
fn health_cursor_preserves_the_first_overflow_as_an_at_least_delta() {
    let failure = || ProjectLogFailureKey::WorkerPanicked;
    let mut cursor = ProjectLogHealthCursor::new();
    let exact = ProjectLogHealthSnapshot {
        failures: vec![counted(failure(), u64::MAX)],
    };
    assert_eq!(cursor.consume(&exact), vec![counted(failure(), u64::MAX)]);
    let overflowed = ProjectLogHealthSnapshot {
        failures: vec![ProjectLogFailureCount {
            failure: failure(),
            count: ObservabilityFailureCount::AtLeast { minimum: u64::MAX },
        }],
    };
    assert_eq!(
        cursor.consume(&overflowed),
        vec![ProjectLogFailureCount {
            failure: failure(),
            count: ObservabilityFailureCount::AtLeast { minimum: 1 },
        }]
    );
    assert!(cursor.consume(&overflowed).is_empty());
}

#[test]
fn health_observer_is_not_notified_for_repeated_failure_key() {
    let mut health = ProjectLogHealth::new();
    health.install_observer(1);
    let backpressure = || ProjectLogFailureKey::BestEffortBackpressure {
        code: ProjectLogCode::PhaseStarted,
    };

    health.record(backpressure());
    health.record(backpressure());
    health.record(ProjectLogFailureKey::WorkerPanicked);

    let snapshots = health.take_notices();
    assert_eq!(snapshots.len(), 3, "安装、首种故障、第二种故障应各通知一次");
    assert_eq!(
        snapshots
            .last()
            .expect("必须有最终快照")
            .snapshot
            .count(&backpressure()),
        2
    );
}

#[test]
fn a_replaced_observer_hears_nothing_more() {
    let mut health = ProjectLogHealth::new();
    health.record(ProjectLogFailureKey::WorkerPanicked);
    health.install_observer(1);
    health.install_observer(2);
    health.record(ProjectLogFailureKey::SequenceExhausted);
    health.clear_observer();
    health.record(ProjectLogFailureKey::OccurrenceIdExhausted);

    let notices = health.take_notices();
    let told: Vec<(u64, usize)> = notices
        .iter()
        .map(|notice| (notice.observer, notice.snapshot.failures.len()))
        .collect();
    assert_eq!(told, vec![(1, 1), (2, 1), (2, 2)]);
    assert!(health.take_notices().is_empty());
    assert_eq!(health.snapshot(), health.snapshot());
    assert_eq!(health.snapshot().failures.len(), 3);
}

#[test]
fn cursors_need_no_order_of_the_keys() {
    let mut cursor = ProjectLogHealthCursor::new();
    let unordered = ProjectLogHealthSnapshot {
        failures: vec![
            counted(ProjectLogFailureKey::SequenceExhausted, 4),
            counted(ProjectLogFailureKey::WorkerPanicked, 2),
        ],
    };
    assert_eq!(
        cursor.consume(&unordered),
        vec![
            counted(ProjectLogFailureKey::SequenceExhausted, 4),
            counted(ProjectLogFailureKey::WorkerPanicked, 2),
        ]
    );
    assert!(cursor.consume(&unordered).is_empty());
    let fewer = ProjectLogHealthSnapshot {
        failures: vec![counted(ProjectLogFailureKey::WorkerPanicked, 5)],
    };
    assert_eq!(
        cursor.consume(&fewer),
        vec![counted(ProjectLogFailureKey::WorkerPanicked, 3)]
    );
    let again = ProjectLogHealthSnapshot {
        failures: vec![counted(ProjectLogFailureKey::SequenceExhausted, 4)],
    };
    assert!(cursor.consume(&again).is_empty());
}

#[test]
fn file_creation_failures_become_reports() {
    let report = creation_failure_report(
        SafePath::new("D:/logs/existing.jsonl"),
        &io_error(SafeIoKind::AlreadyExists, Some(80)),
    );
    assert_eq!(report.effect, StateEffect::Unchanged);
    assert!(matches!(
        &report.primary,
        Diagnostic::Observability(ObservabilityIssue::Create { path, failure, .. })
            if path.as_str() == "D:/logs/existing.jsonl" && failure.raw_os_code == Some(80)
    ));
    let report = start_failure_report(
        SafePath::new("D:/logs/run.jsonl"),
        &io_error(SafeIoKind::OutOfMemory, None),
        Err(io_error(SafeIoKind::PermissionDenied, Some(5))),
    );
    assert!(matches!(
        &report.primary,
        Diagnostic::Observability(ObservabilityIssue::WorkerStart { .. })
    ));
    assert!(matches!(
        &report.related[0].report.primary,
        Diagnostic::Observability(ObservabilityIssue::Cleanup { .. })
    ));
}

#[test]
fn typed_event_messages_name_their_values() {
    let context = context(ProjectLogCommand::Translate);
    assert_eq!(
        ProjectLogEvent::CancellationRequested {
            confirmed: 2,
            total: Some(3),
        }
        .message(&context),
        UiMessage::LogCancellationRequested {
            confirmed: 2,
            total: 3
        }
    );
    assert_eq!(
        ProjectLogEvent::CancellationRequested {
            confirmed: 2,
            total: None,
        }
        .message(&context),
        UiMessage::LogCancellationRequestedIndeterminate { confirmed: 2 }
    );
    assert_eq!(
        ProjectLogEvent::publication_started(r"\\?\C:\out").message(&context),
        UiMessage::LogPublicationStarted {
            path: SafePath::new(r"C:\out")
        }
    );
    assert_eq!(
        ProjectLogEvent::RunFinished {
            result: RunFinished::Cancelled
        }
        .message(&context),
        UiMessage::LogRunCancelled {
            command: "translate"
        }
    );
    assert_eq!(ProjectLogLocale::Japanese.ui_locale(), UiLocale::Japanese);
}

#[test]
fn phase_never_completes_by_inference_and_cancel_is_written_once() {
    let mut bench = Bench::start(ProjectLogCommand::Extract, Faults::default());
    assert_eq!(
        bench.emit(ProjectLogEvent::phase_completed(
            ProjectLogPhase::ScanSource,
            ProjectLogAmount::Indeterminate,
        )),
        Err(EmitError::InvalidPhaseTransition(
            ProjectLogPhase::ScanSource
        ))
    );
    bench
        .emit(ProjectLogEvent::phase_started(
            ProjectLogPhase::ScanSource,
            ProjectLogAmount::Indeterminate,
        ))
        .expect("阶段应该开始");
    bench
        .emit(ProjectLogEvent::phase_stopped(
            ProjectLogPhase::ScanSource,
            PhaseStopOutcome::Cancelled,
        ))
        .expect("阶段应该停止");
    bench
        .emit(ProjectLogEvent::CancellationRequested {
            confirmed: 0,
            total: None,
        })
        .expect("首个取消信号必须写入");
    assert_eq!(
        bench
            .emit(ProjectLogEvent::CancellationRequested {
                confirmed: 0,
                total: None,
            })
            .expect("重复信号应被抑制"),
        EmitDisposition::DuplicateSuppressed
    );
    let (shutdown, bench) = bench.finish(RunFinished::Cancelled, Vec::new());
    shutdown.expect("取消运行必须收尾");
    let codes = bench.codes();
    assert_eq!(
        codes
            .iter()
            .filter(|code| **code == "run.cancel_requested")
            .count(),
        1
    );
    assert_eq!(codes.last(), Some(&"run.finished"));
}

#[test]
fn publication_started_requires_publication_finished_before_normal_shutdown() {
    let mut bench = Bench::start(ProjectLogCommand::WriteBack, Faults::default());
    bench
        .emit(ProjectLogEvent::publication_started("output"))
        .expect("发布应该开始");

    let (result, _) = bench.finish(RunFinished::Succeeded, Vec::new());
    assert!(matches!(
        result,
        Err(FinishError::MissingPublicationFinished)
    ));
}

#[test]
fn translate_requires_exact_task_terminals_and_one_translation_finished() {
    let mut bench = Bench::start(ProjectLogCommand::Translate, Faults::default());
    let task = TaskPosition::new(1, 1).expect("任务位置必须有效");
    bench
        .emit(ProjectLogEvent::TaskStarted { task })
        .expect("任务必须开始");
    let diagnostic = bench
        .record_diagnostic(
            DiagnosticScope::TranslationTask,
            diagnostic_report(StateEffect::ProgressPreserved),
        )
        .expect("任务诊断必须记录");
    bench
        .emit(ProjectLogEvent::TaskFinished {
            task,
            attempts: 1,
            outcome: TaskFinishedOutcome::Partial { diagnostic },
        })
        .expect("任务必须有终态");
    let tasks = TranslationTaskCounters::new(1, 1, 0, 1, 0, 0, 0, 0).expect("任务计数必须有效");
    assert_eq!(
        bench.runtime.logger().translation_task_counters(1),
        Ok(tasks)
    );
    let result = TranslationFinished::Incomplete {
        tasks,
        summary: TranslationEngineSummary::Generic(GenericTranslationSummary {
            cleared_units: 0,
            reused_units: 0,
            accepted_units: 1,
            written_units: 1,
            conflicted_units: 0,
            response_problems: 1,
        }),
    };
    bench
        .emit(ProjectLogEvent::TranslationFinished { result })
        .expect("翻译必须有终态");
    assert_eq!(
        bench.emit(ProjectLogEvent::TranslationFinished { result }),
        Err(EmitError::DuplicateTranslationFinished)
    );
    let (shutdown, bench) = bench.finish(RunFinished::Succeeded, Vec::new());
    shutdown.expect("运行必须正常收尾");
    let finished: Vec<&ProjectLogRecord> = bench
        .written
        .iter()
        .filter(|record| record.code.as_str() == "translation.finished")
        .collect();
    assert_eq!(finished.len(), 1);
    assert_eq!(finished[0].level, ProjectLogLevel::Warn);
    assert!(matches!(
        &finished[0].payload,
        ProjectLogEvent::TranslationFinished { result } if result.tasks().is_some_and(|tasks| tasks.not_started == 0)
    ));
}

#[test]
fn later_task_not_committed_after_failure_reuses_the_original_occurrence() {
    let mut bench = Bench::start(ProjectLogCommand::Translate, Faults::default());
    let first = TaskPosition::new(1, 2).expect("首个任务位置必须有效");
    let second = TaskPosition::new(2, 2).expect("后续任务位置必须有效");
    bench
        .emit(ProjectLogEvent::TaskStarted { task: first })
        .expect("首个任务必须开始");
    let diagnostic = bench
        .record_diagnostic(
            DiagnosticScope::TranslationTask,
            diagnostic_report(StateEffect::ProgressPreserved),
        )
        .expect("首个失败诊断必须记录");
    bench
        .emit(ProjectLogEvent::TaskFinished {
            task: first,
            attempts: 1,
            outcome: TaskFinishedOutcome::Failed { diagnostic },
        })
        .expect("首个任务必须失败");
    bench
        .emit(ProjectLogEvent::TaskStarted { task: second })
        .expect("后续任务必须开始");
    bench
        .emit(ProjectLogEvent::TaskFinished {
            task: second,
            attempts: 1,
            outcome: TaskFinishedOutcome::NotCommittedAfterEarlierFailure { diagnostic },
        })
        .expect("后续任务必须明确表示未提交");
    let tasks =
        TranslationTaskCounters::new(2, 2, 0, 0, 0, 2, 0, 0).expect("两项失败任务计数必须有效");
    bench
        .emit(ProjectLogEvent::TranslationFinished {
            result: TranslationFinished::Failed {
                tasks,
                summary: None,
                diagnostic,
            },
        })
        .expect("翻译终态必须复用首个失败 occurrence");
    let (shutdown, bench) = bench.finish(RunFinished::Failed { diagnostic }, Vec::new());
    shutdown.expect("失败运行必须正常收尾");

    let task_records: Vec<&ProjectLogRecord> = bench
        .written
        .iter()
        .filter(|record| record.code.as_str() == "task.finished")
        .collect();
    assert_eq!(task_records.len(), 2);
    assert!(matches!(
        &task_records[1].payload,
        ProjectLogEvent::TaskFinished { outcome, .. }
            if outcome.as_str() == "not_committed_after_earlier_failure"
    ));
}

fn task_started(ordinal: u64, total: u64) -> ProjectLogEvent {
    ProjectLogEvent::TaskStarted {
        task: TaskPosition::new(ordinal, total).expect("测试任务位置合法"),
    }
}

fn task_finished(ordinal: u64, total: u64, outcome: TaskFinishedOutcome) -> ProjectLogEvent {
    ProjectLogEvent::TaskFinished {
        task: TaskPosition::new(ordinal, total).expect("测试任务位置合法"),
        attempts: 1,
        outcome,
    }
}

#[test]
fn refused_task_events_do_not_count() {
    let mut bench = Bench::start(ProjectLogCommand::Translate, Faults::default());
    bench.emit(task_started(1, 1)).expect("任务开始应被接受");
    bench
        .emit(task_finished(1, 1, TaskFinishedOutcome::Complete))
        .expect("任务结束应被接受");
    assert_eq!(
        bench.emit(task_finished(1, 1, TaskFinishedOutcome::Cancelled)),
        Err(EmitError::InvalidTaskTransition(1))
    );
    assert_eq!(
        bench.emit(task_started(1, 1)),
        Err(EmitError::DuplicateTask(1))
    );
    assert_eq!(
        bench.runtime.logger().translation_task_counters(1),
        Ok(TranslationTaskCounters {
            planned: 1,
            started: 1,
            complete: 1,
            partial: 0,
            unavailable: 0,
            failed: 0,
            cancelled: 0,
            not_started: 0,
        })
    );
}

#[test]
fn task_events_that_nobody_took_do_not_count() {
    let mut bench = Bench::start(ProjectLogCommand::Translate, Faults::default());
    bench.open = false;
    assert_eq!(bench.emit(task_started(1, 1)), Err(EmitError::Closed));
    let counters = bench
        .runtime
        .logger()
        .translation_task_counters(2)
        .expect("没有任务开始");
    assert_eq!((counters.started, counters.not_started), (0, 2));

    bench.open = true;
    bench.emit(task_started(1, 3)).expect("任务开始应被接受");
    bench.emit(task_started(2, 3)).expect("任务开始应被接受");
    bench.open = false;
    assert_eq!(bench.emit(task_started(3, 3)), Err(EmitError::Closed));
    assert_eq!(
        bench.emit(task_finished(1, 3, TaskFinishedOutcome::Complete)),
        Err(EmitError::Closed)
    );
    bench.open = true;
    for ordinal in [1, 2] {
        bench
            .emit(task_finished(ordinal, 3, TaskFinishedOutcome::Cancelled))
            .expect("任务结束应被接受");
    }
    let counters = bench
        .runtime
        .logger()
        .translation_task_counters(3)
        .expect("任务均已结束");
    assert_eq!(
        (counters.started, counters.complete, counters.cancelled, counters.not_started),
        (2, 0, 2, 1)
    );
}

#[test]
fn planning_diagnostic_requires_failed_translation_with_all_tasks_not_started() {
    let mut bench = Bench::start(ProjectLogCommand::Translate, Faults::default());
    let diagnostic = bench
        .record_diagnostic(
            DiagnosticScope::RunPlan,
            diagnostic_report(StateEffect::Unchanged),
        )
        .expect("规划诊断必须记录");
    assert_eq!(
        bench.emit(ProjectLogEvent::TranslationFinished {
            result: TranslationFinished::NotStarted,
        }),
        Err(EmitError::DiagnosticRequiresFailedTranslation)
    );
    let tasks =
        TranslationTaskCounters::new(3, 0, 0, 0, 0, 0, 0, 3).expect("全部未开始的计数必须有效");
    bench
        .emit(ProjectLogEvent::TranslationFinished {
            result: TranslationFinished::Failed {
                tasks,
                summary: None,
                diagnostic,
            },
        })
        .expect("规划失败必须形成带诊断的翻译终态");
    let (shutdown, bench) = bench.finish(RunFinished::Failed { diagnostic }, Vec::new());
    shutdown.expect("失败运行仍必须完成日志收尾");
    let diagnostic_record = bench
        .written
        .iter()
        .find(|record| record.code.as_str() == "diagnostic.run_plan")
        .expect("必须有运行计划诊断");
    assert_eq!(diagnostic_record.level, ProjectLogLevel::Error);
    assert!(bench.written.iter().any(|record| matches!(
        &record.payload,
        ProjectLogEvent::TranslationFinished {
            result: TranslationFinished::Failed { tasks, .. }
        } if tasks.not_started == 3
    )));
}

fn retry(recovered: u64, exhausted: u64) -> ProjectLogEvent {
    ProjectLogEvent::RetrySummary {
        attempted: 1,
        recovered,
        exhausted,
    }
}

fn cancellation() -> ProjectLogEvent {
    ProjectLogEvent::CancellationRequested {
        confirmed: 0,
        total: None,
    }
}

#[test]
fn queue_pressure_drops_only_best_effort_and_keeps_required_event() {
    let mut bench = Bench::start(ProjectLogCommand::Extract, Faults::default());
    for _ in 0..BEST_EFFORT_IN_FLIGHT {
        assert_eq!(
            bench.emit(retry(1, 0)).expect("permit 内事件必须接收"),
            EmitDisposition::Accepted
        );
    }
    assert_eq!(
        bench
            .emit(retry(0, 1))
            .expect("超出 permit 的尽力事件应正常降级"),
        EmitDisposition::BestEffortDropped
    );
    bench.emit(cancellation()).expect("必要事件不能被压力丢弃");
    let (shutdown, bench) = bench.finish(RunFinished::Succeeded, Vec::new());
    let shutdown = shutdown.expect("运行必须收尾");
    assert_eq!(
        shutdown
            .health
            .count(&ProjectLogFailureKey::BestEffortBackpressure {
                code: ProjectLogCode::RetrySummary,
            }),
        1
    );
    assert_eq!(
        shutdown.health.count(&ProjectLogFailureKey::ChannelClosed {
            code: Some(ProjectLogCode::RetrySummary),
        }),
        0,
        "permit 用尽不是 channel 关闭"
    );
    let failure = shutdown
        .health
        .failures
        .iter()
        .find(|entry| {
            entry.failure
                == ProjectLogFailureKey::BestEffortBackpressure {
                    code: ProjectLogCode::RetrySummary,
                }
        })
        .expect("尽力事件背压必须保留类型化健康项");
    assert_eq!(
        failure.diagnostic_report().primary,
        Diagnostic::Observability(ObservabilityIssue::Backpressure {
            component: ObservabilityComponent::ProjectLog,
            event: ObservabilityEventCode::RetrySummary,
            count: ObservabilityFailureCount::exact(1),
        })
    );
    assert!(bench.codes().contains(&"run.cancel_requested"));
}

#[test]
fn serialize_failure_is_counted_and_later_terminal_events_are_written() {
    let mut bench = Bench::start(
        ProjectLogCommand::Extract,
        Faults {
            fail_encode_at: Some(2),
            ..Faults::default()
        },
    );
    bench.emit(cancellation()).expect("必要事件必须入队");
    let (shutdown, bench) = bench.finish(RunFinished::Succeeded, Vec::new());
    assert_eq!(
        shutdown
            .expect("运行必须收尾")
            .health
            .count(&ProjectLogFailureKey::Serialize {
                path: None,
                code: ProjectLogCode::CancellationRequested,
            }),
        1
    );
    let codes = bench.codes();
    assert!(codes.contains(&"observability.project_log_degraded"));
    assert_eq!(codes.last(), Some(&"run.finished"));
}

fn write_failure() -> ProjectLogFailureKey {
    ProjectLogFailureKey::Write {
        path: None,
        code: ProjectLogCode::CancellationRequested,
        io_kind: SafeIoKind::PermissionDenied,
        raw_os_code: Some(5),
    }
}

#[test]
fn first_write_failure_stops_serialization_and_counts_unpersisted_tail() {
    let mut bench = Bench::start(
        ProjectLogCommand::Extract,
        Faults {
            fail_write_at: Some(2),
            ..Faults::default()
        },
    );
    bench.emit(cancellation()).expect("必要事件必须入队");
    let (shutdown, bench) = bench.finish(RunFinished::Succeeded, Vec::new());
    let shutdown = shutdown.expect("业务终态不能被日志写失败改写");
    assert_eq!(shutdown.health.count(&write_failure()), 1);
    assert!(
        shutdown.health.count(&ProjectLogFailureKey::NotPersisted {
            code: ProjectLogCode::RunFinished,
        }) > 0
    );
    assert_eq!(bench.written.len(), 1);
    assert_eq!(
        bench.encode_calls, 2,
        "首次 write 失败后不得再建立或序列化后续记录"
    );
}

#[test]
fn first_write_failure_drains_queued_best_effort_events_before_finish() {
    let mut bench = Bench::start(
        ProjectLogCommand::Extract,
        Faults {
            fail_write_at: Some(2),
            ..Faults::default()
        },
    );
    bench
        .emit(cancellation())
        .expect("触发首个 write 失败的必要事件必须入队");
    for _ in 0..32 {
        assert_eq!(
            bench
                .emit(retry(1, 0))
                .expect("排空前的 BestEffort 事件必须能入队"),
            EmitDisposition::Accepted
        );
    }
    bench.drain();
    assert_eq!(bench.count(&write_failure()), 1);
    for _ in 0..BEST_EFFORT_IN_FLIGHT {
        assert_eq!(
            bench.emit(retry(1, 0)),
            Ok(EmitDisposition::Accepted),
            "首个 write 失败必须释放已排空 BestEffort 的 permit"
        );
    }
    let (shutdown, bench) = bench.finish(RunFinished::Succeeded, Vec::new());
    let shutdown = shutdown.expect("日志失败不改变业务收尾能力");
    assert_eq!(
        bench.encode_calls, 2,
        "首个 write 失败后 FIFO 中的事件必须直接计数而非继续编码"
    );
    assert!(
        shutdown.health.count(&ProjectLogFailureKey::NotPersisted {
            code: ProjectLogCode::RetrySummary,
        }) >= 32
    );
}

#[test]
fn flush_and_sync_failures_are_kept_independently() {
    let bench = Bench::start(
        ProjectLogCommand::Extract,
        Faults {
            fail_flush: true,
            fail_sync: true,
            ..Faults::default()
        },
    );
    let (shutdown, _) = bench.finish(RunFinished::Succeeded, Vec::new());
    let shutdown = shutdown.expect("业务终态不能被日志收尾失败改写");
    assert_eq!(
        shutdown.health.count(&ProjectLogFailureKey::Flush {
            path: None,
            io_kind: SafeIoKind::BrokenPipe,
            raw_os_code: None,
        }),
        1
    );
    assert_eq!(
        shutdown.health.count(&ProjectLogFailureKey::Sync {
            path: None,
            io_kind: SafeIoKind::PermissionDenied,
            raw_os_code: None,
        }),
        1
    );
}

#[test]
fn terminal_diagnostic_is_after_performance_and_before_unique_run_finished() {
    let mut bench = Bench::start(ProjectLogCommand::Extract, Faults::default());
    let prepared = bench
        .runtime
        .logger_mut()
        .prepare_terminal_diagnostic(
            &mut bench.account,
            DiagnosticScope::Run,
            diagnostic_report(StateEffect::OutcomeUnknown),
        )
        .expect("必须能预备终端诊断");
    let result = RunFinished::OutcomeUnknown {
        diagnostic: prepared.id(),
    };
    let (shutdown, bench) = bench.finish(result, vec![prepared]);
    shutdown.expect("未知终态必须写出");
    assert_eq!(
        bench.codes(),
        [
            "run.started",
            "performance.counters",
            "diagnostic.run",
            "run.finished",
        ]
    );
}

#[test]
fn runtime_drop_writes_pre_registered_unknown_outcome_without_panic_payload() {
    let mut bench = Bench::start(ProjectLogCommand::Extract, Faults::default());
    bench.drop_unfinished();
    let last = bench.written.last().expect("Drop 必须写终态");
    assert_eq!(last.code.as_str(), "run.finished");
    assert!(matches!(
        &last.payload,
        ProjectLogEvent::RunFinished {
            result: RunFinished::OutcomeUnknown { .. }
        }
    ));
}

#[test]
fn drop_closes_sender_when_terminal_occurrence_cannot_be_allocated() {
    let mut bench = Bench::start_logger(
        ProjectLogCommand::Extract,
        Faults::default(),
        ProjectLogger::numbered_from(context(ProjectLogCommand::Extract), u64::MAX),
        diagnostic_report(StateEffect::OutcomeUnknown),
    );
    bench.drop_unfinished();
    assert_eq!(
        bench.written.len(),
        1,
        "无法分配 Drop 终态时仍须关闭 sender 并结束 writer"
    );
    assert_eq!(bench.count(&ProjectLogFailureKey::OccurrenceIdExhausted), 1);
    assert_eq!(
        bench.emit(cancellation()),
        Err(EmitError::Closed),
        "sender 关闭后不得再接受事件"
    );
}

#[test]
fn finish_validation_failure_replaces_drop_panic_report_with_contract_diagnostic() {
    let panic_report = || {
        DiagnosticReport::new(
            StateEffect::OutcomeUnknown,
            Diagnostic::Runtime(RuntimeIssue::WorkerPanicked {
                component: RuntimeComponent::SqliteExecutor,
                operation: RuntimeOperation::DetectAvailableParallelism,
            }),
        )
    };
    let mut bench =
        Bench::start_with(ProjectLogCommand::Extract, Faults::default(), panic_report());
    bench
        .emit(ProjectLogEvent::phase_started(
            ProjectLogPhase::ScanSource,
            ProjectLogAmount::Indeterminate,
        ))
        .expect("阶段开始必须入队");

    let (result, bench) = bench.finish(RunFinished::Succeeded, Vec::new());
    assert_eq!(result.err(), Some(FinishError::ActivePhase));

    let terminal = bench.written.last().expect("Drop 必须尽力写出终态");
    assert_eq!(terminal.code.as_str(), "run.finished");
    assert!(matches!(
        &terminal.payload,
        ProjectLogEvent::RunFinished {
            result: RunFinished::OutcomeUnknown { .. }
        }
    ));
    let reports: Vec<&DiagnosticReport> = bench
        .written
        .iter()
        .filter_map(|record| match &record.payload {
            ProjectLogEvent::Diagnostic { occurrence } => Some(occurrence.report()),
            _ => None,
        })
        .collect();
    assert_eq!(reports.len(), 1);
    assert_eq!(
        reports[0].primary,
        FinishError::ActivePhase.diagnostic_report().primary,
        "finish 合同错误必须成为终态诊断"
    );
    assert_ne!(reports[0], &panic_report());
}

#[test]
fn writer_panic_drains_queue_and_marks_terminal_events_unpersisted() {
    let mut bench = Bench::start(
        ProjectLogCommand::Extract,
        Faults {
            panic_encode_at: Some(1),
            ..Faults::default()
        },
    );
    bench.drain();
    assert_eq!(bench.count(&ProjectLogFailureKey::WorkerPanicked), 1);
    assert_eq!(bench.emit(cancellation()), Err(EmitError::Closed));
    bench.drop_unfinished();
    assert!(
        bench.count(&ProjectLogFailureKey::ChannelClosed {
            code: Some(ProjectLogCode::CancellationRequested),
        }) >= 1
    );
    assert!(
        bench.count(&ProjectLogFailureKey::NotPersisted {
            code: ProjectLogCode::RunFinished,
        }) >= 1,
        "writer panic 后无法入队的收尾事件必须留下未持久化计数"
    );
}

#[test]
fn writer_panic_releases_best_effort_permits() {
    let mut bench = Bench::start(
        ProjectLogCommand::Extract,
        Faults {
            panic_encode_at: Some(2),
            ..Faults::default()
        },
    );
    for _ in 0..BEST_EFFORT_IN_FLIGHT {
        assert_eq!(bench.emit(retry(1, 0)), Ok(EmitDisposition::Accepted));
    }
    bench.drain();
    assert_eq!(bench.count(&ProjectLogFailureKey::WorkerPanicked), 1);
    assert_eq!(
        bench.emit(retry(1, 0)),
        Err(EmitError::Closed),
        "permit 已归还，只剩通道关闭"
    );
    assert_eq!(
        bench.count(&ProjectLogFailureKey::BestEffortBackpressure {
            code: ProjectLogCode::RetrySummary,
        }),
        0
    );
}

#[test]
fn terminal_events_reject_mismatched_diagnostic_scope() {
    let mut extract = Bench::start(ProjectLogCommand::Extract, Faults::default());
    extract
        .emit(ProjectLogEvent::RunPlanResolved {
            plan: ResolvedRunPlan::generic_extract(RunPlanValueSource::Explicit),
        })
        .expect("Extract 运行计划必须能建立");
    let extract_diagnostic = extract
        .record_diagnostic(
            DiagnosticScope::Extract,
            diagnostic_report(StateEffect::Unchanged),
        )
        .expect("Extract 诊断必须能建立");
    assert_eq!(
        extract.emit(ProjectLogEvent::RunPlanFinalized {
            database: SafePath::new("project.db"),
            result: RunPlanFinalization::NotSaved {
                transaction: RunPlanTransactionState::NotStarted,
                run_continues: false,
                diagnostic: extract_diagnostic,
            },
        }),
        Err(EmitError::InvalidDiagnosticScope(extract_diagnostic))
    );

    let mut translate = Bench::start(ProjectLogCommand::Translate, Faults::default());
    let task = TaskPosition::new(1, 1).expect("任务位置合法");
    translate
        .emit(ProjectLogEvent::TaskStarted { task })
        .expect("任务开始必须能建立");
    let run_diagnostic = translate
        .record_diagnostic(
            DiagnosticScope::Run,
            diagnostic_report(StateEffect::Unchanged),
        )
        .expect("运行诊断必须能建立");
    assert_eq!(
        translate.emit(ProjectLogEvent::TaskFinished {
            task,
            attempts: 1,
            outcome: TaskFinishedOutcome::Failed {
                diagnostic: run_diagnostic,
            },
        }),
        Err(EmitError::InvalidDiagnosticScope(run_diagnostic))
    );

    let mut publication = Bench::start(ProjectLogCommand::WriteBack, Faults::default());
    publication
        .emit(ProjectLogEvent::publication_started("output"))
        .expect("发布开始必须能建立");
    let run_diagnostic = publication
        .record_diagnostic(
            DiagnosticScope::Run,
            diagnostic_report(StateEffect::Unchanged),
        )
        .expect("运行诊断必须能建立");
    assert_eq!(
        publication.emit(ProjectLogEvent::PublicationFinished {
            result: PublicationFinished::NotPublished {
                diagnostic: run_diagnostic,
            },
        }),
        Err(EmitError::InvalidDiagnosticScope(run_diagnostic))
    );
}

#[test]
fn managed_events_and_closed_logs_refuse() {
    let mut bench = Bench::start(ProjectLogCommand::Extract, Faults::default());
    assert_eq!(
        bench.emit(ProjectLogEvent::RunStarted),
        Err(EmitError::RuntimeManagedEvent {
            event: ProjectLogCode::RunStarted
        })
    );
    assert_eq!(
        bench.emit(retry(1, 1)),
        Err(EmitError::InvalidRetrySummary {
            attempted: 1,
            recovered: 1,
            exhausted: 1
        })
    );
    assert_eq!(
        bench.emit(ProjectLogEvent::CancellationRequested {
            confirmed: 4,
            total: Some(3),
        }),
        Err(EmitError::InvalidCancellationCount {
            confirmed: 4,
            total: 3
        })
    );
    bench.runtime.logger_mut().close_producer();
    assert_eq!(bench.emit(cancellation()), Err(EmitError::Closed));
}

#[test]
fn a_queue_that_closes_early_and_a_panicking_flush_are_counted() {
    let mut bench = Bench::start(ProjectLogCommand::Extract, Faults::default());
    queue_closed(&mut bench.account);
    assert_eq!(
        bench.count(&ProjectLogFailureKey::ChannelClosed { code: None }),
        1
    );
    assert!(!bench
        .writer
        .flush_and_sync(&mut bench.account, FlushAttempt::PanickedFlushing));
    assert!(!bench.writer.flush_and_sync(
        &mut bench.account,
        FlushAttempt::PanickedSynchronizing {
            flushed: Err(io_error(SafeIoKind::BrokenPipe, None))
        }
    ));
    assert_eq!(bench.count(&ProjectLogFailureKey::WorkerPanicked), 2);
    assert_eq!(
        bench.count(&ProjectLogFailureKey::Flush {
            path: None,
            io_kind: SafeIoKind::BrokenPipe,
            raw_os_code: None,
        }),
        1
    );
}

#[test]
fn a_second_finish_is_refused() {
    let bench = Bench::start(ProjectLogCommand::Extract, Faults::default());
    let (first, mut bench) = bench.finish(RunFinished::Succeeded, Vec::new());
    first.expect("首次收尾必须成功");
    let performance = RunPerformanceCounters::new().snapshot();
    assert_eq!(
        bench
            .runtime
            .finish(RunFinished::Succeeded, Vec::new(), performance)
            .err(),
        Some(FinishError::AlreadyFinished)
    );
    let numbers: Vec<u64> = bench.written.iter().map(|record| record.sequence).collect();
    assert!(numbers.windows(2).all(|pair| pair[0] < pair[1]));
    assert_eq!(numbers[0], 1);
}

/// Lets the writer work off a queue that then closes; answers with the codes it wrote.
fn worked_off(
    account: &mut LogAccount,
    mut queue: VecDeque<QueueItem>,
    faults: Faults,
) -> (Vec<&'static str>, Vec<QueueItem>) {
    let mut run = WriterLoop::new(WriterState::new(
        context(ProjectLogCommand::Extract),
        run_name(),
        None,
    ));
    let mut encode_calls = 0;
    let mut write_calls = 0;
    let mut written = Vec::new();
    let mut clock = 0;
    loop {
        let reply = match run.request() {
            LoopRequest::Receive => LoopReply::Received(queue.pop_front()),
            LoopRequest::Write { record } => {
                encode_calls += 1;
                LoopReply::Attempted(if faults.panic_encode_at == Some(encode_calls) {
                    PersistAttempt::Panicked
                } else if faults.fail_encode_at == Some(encode_calls) {
                    PersistAttempt::NotEncoded
                } else {
                    write_calls += 1;
                    if faults.fail_write_at == Some(write_calls) {
                        PersistAttempt::NotWritten(io_error(SafeIoKind::PermissionDenied, Some(5)))
                    } else {
                        written.push(record.code.as_str());
                        PersistAttempt::Written
                    }
                })
            }
            LoopRequest::CloseQueue => LoopReply::QueueClosed,
            LoopRequest::TakeWaiting => LoopReply::Taken(queue.pop_front()),
            LoopRequest::ReadClock => {
                clock += 1;
                LoopReply::Time(clock)
            }
            LoopRequest::Flush => LoopReply::Flushed(FlushAttempt::Ended {
                flushed: Ok(()),
                synced: Ok(()),
            }),
            LoopRequest::Nothing => break,
        };
        run = run.advance(account, reply);
    }
    (written, queue.into_iter().collect())
}

/// The beginning of a run, a best-effort event, and its end.
fn short_run() -> (LogAccount, VecDeque<QueueItem>) {
    let mut account = LogAccount::new();
    let mut logger = ProjectLogger::new(context(ProjectLogCommand::Extract));
    let mut queue = VecDeque::new();
    queue.push_back(QueueItem::Event(
        logger
            .run_started(&mut account, 0)
            .expect("首个事件必须有编号"),
    ));
    match logger.emit(&mut account, 0, retry(1, 0)) {
        Ok(Submission::Send(queued)) => queue.push_back(QueueItem::Event(queued)),
        _ => panic!("尽力事件必须可入队"),
    }
    let performance = RunPerformanceCounters::new().snapshot();
    let mut runtime =
        ProjectLogRuntime::new(logger, diagnostic_report(StateEffect::OutcomeUnknown));
    let request = runtime
        .finish(RunFinished::Succeeded, Vec::new(), performance)
        .expect("正常收尾");
    queue.push_back(QueueItem::Finalize(request));
    (account, queue)
}

fn not_persisted(code: ProjectLogCode) -> ProjectLogFailureKey {
    ProjectLogFailureKey::NotPersisted { code }
}

#[test]
fn the_writer_closes_a_run_with_its_result() {
    let (mut account, queue) = short_run();
    let codes = worked_off(&mut account, queue, Faults::default()).0;
    assert_eq!(codes.first(), Some(&ProjectLogCode::RunStarted.as_str()));
    assert_eq!(codes.last(), Some(&ProjectLogCode::RunFinished.as_str()));
    assert_eq!(codes.len(), 4);
    assert!(account.health().is_healthy());
}

#[test]
fn the_writer_discards_after_a_write_failure_and_stops_after_a_panic() {
    let (mut account, queue) = short_run();
    let faults = Faults {
        fail_write_at: Some(1),
        ..Faults::default()
    };
    let (codes, rest) = worked_off(&mut account, queue, faults);
    assert!(codes.is_empty());
    assert!(rest.is_empty());
    assert_eq!(
        account
            .health()
            .count(&not_persisted(ProjectLogCode::RunFinished)),
        1
    );
    assert_eq!(
        account
            .health()
            .count(&ProjectLogFailureKey::ChannelClosed { code: None }),
        1
    );

    let (mut account, queue) = short_run();
    let faults = Faults {
        panic_encode_at: Some(2),
        ..Faults::default()
    };
    let (codes, rest) = worked_off(&mut account, queue, faults);
    assert_eq!(codes, [ProjectLogCode::RunStarted.as_str()]);
    assert!(rest.is_empty());
    assert_eq!(
        account.health().count(&ProjectLogFailureKey::WorkerPanicked),
        1
    );
    assert_eq!(
        account
            .health()
            .count(&not_persisted(ProjectLogCode::RunFinished)),
        1
    );

    let (mut account, queue) = short_run();
    let faults = Faults {
        panic_encode_at: Some(3),
        ..Faults::default()
    };
    let (codes, _) = worked_off(&mut account, queue, faults);
    assert_eq!(codes.len(), 2);
    assert_eq!(
        account
            .health()
            .count(&not_persisted(ProjectLogCode::RunFinished)),
        1
    );
}
