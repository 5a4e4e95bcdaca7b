//! The life of one run's log: from its start to the moment nothing more can be said.

use vstd::prelude::*;
use crate::diagnostic::{
    Diagnostic, DiagnosticReport, IoError, IoFailure, ObservabilityComponent, ObservabilityIssue,
    RelatedFailureRelation, SafePath, StateEffect,
};
use crate::log_errors;
use crate::log_event::{
    DiagnosticScope, ProjectLogCode, ProjectLogFailureKey, ProjectLogHealthSnapshot, RunFinished,
};
use crate::log_producer;
use crate::log_producer::FinishError;
use crate::log_runtime;
use crate::log_runtime::{FinalizeRequest, LogAccount, ProjectLogger};
use crate::log_terminal;
use crate::log_terminal::PreparedTerminalDiagnostic;
use crate::log_writer;
use crate::log_writer::record_unpersisted_finalize;
use crate::performance::RunPerformanceSnapshot;
use crate::search;

verus! {

/// Whether `report` tells that the log could not be created.
pub open spec fn is_creation_failure(path: SafePath, source: IoError, report: DiagnosticReport) -> bool {
    report.is_single(
        StateEffect::Unchanged,
        Diagnostic::Observability(
            ObservabilityIssue::Create {
                component: ObservabilityComponent::ProjectLog,
                path,
                failure: source.failure(),
            },
        ),
    )
}

/// The log's file could not be created.
pub fn creation_failure_report(path: SafePath, source: &IoError) -> (report: DiagnosticReport)
    ensures
        is_creation_failure(path, *source, report),
{
    let failure = IoFailure::from_error(source);
    DiagnosticReport::new(
        StateEffect::Unchanged,
        Diagnostic::Observability(
            ObservabilityIssue::Create { component: ObservabilityComponent::ProjectLog, path, failure },
        ),
    )
}

/// Whether `report` tells that the log could not be started, and what its cleanup left.
pub open spec fn is_start_failure(
    path: SafePath,
    source: IoError,
    cleanup: Result<(), IoError>,
    report: DiagnosticReport,
) -> bool {
    &&& report.effect == StateEffect::Unchanged
    &&& report.primary == Diagnostic::Observability(
        ObservabilityIssue::WorkerStart {
            component: ObservabilityComponent::ProjectLog,
            failure: source.failure(),
        },
    )
    &&& match cleanup {
        Ok(_) => report.related@.len() == 0,
        Err(error) => {
            &&& report.related@.len() == 1
            &&& report.related@[0].relation == RelatedFailureRelation::Cleanup
            &&& report.related@[0].report.is_single(
                StateEffect::Unchanged,
                Diagnostic::Observability(
                    ObservabilityIssue::Cleanup {
                        component: ObservabilityComponent::ProjectLog,
                        path,
                        failure: error.failure(),
                    },
                ),
            )
        },
    }
}

/// The writer could not be started; its file is removed again, which may fail too.
pub fn start_failure_report(path: SafePath, source: &IoError, cleanup: Result<(), IoError>) -> (report:
    DiagnosticReport)
    ensures
        is_start_failure(path, *source, cleanup, report),
{
    let failure = IoFailure::from_error(source);
    let report = DiagnosticReport::new(
        StateEffect::Unchanged,
        Diagnostic::Observability(
            ObservabilityIssue::WorkerStart { component: ObservabilityComponent::ProjectLog, failure },
        ),
    );
    match cleanup {
        Ok(_) => report,
        Err(error) => {
            let failure = IoFailure::from_error(&error);
            let related = DiagnosticReport::new(
                StateEffect::Unchanged,
                Diagnostic::Observability(
                    ObservabilityIssue::Cleanup {
                        component: ObservabilityComponent::ProjectLog,
                        path,
                        failure,
                    },
                ),
            );
            report.with_related(RelatedFailureRelation::Cleanup, related)
        },
    }
}

/// What is left of a log that came to its end.
#[derive(Debug)]
pub struct ProjectLogShutdown {
    pub health: ProjectLogHealthSnapshot,
}

/// Takes note of how the writer ended.
pub fn join_worker(account: &mut LogAccount, panicked: bool) -> (shutdown: ProjectLogShutdown)
    requires
        old(account).well_formed(),
    ensures
        final(account).well_formed(),
        final(account)@ == if panicked {
            old(account)@.failed(ProjectLogFailureKey::WorkerPanicked)
        } else {
            old(account)@
        },
        final(account)@.health.is_shown_by(shutdown.health),
{
    if panicked {
        account.record(ProjectLogFailureKey::WorkerPanicked);
    }
    ProjectLogShutdown { health: account.health() }
}

/// The report of a broken rule, as a run of unknown outcome.
pub open spec fn is_final_report(report: DiagnosticReport, error: FinishError) -> bool {
    &&& report.effect == StateEffect::OutcomeUnknown
    &&& exists|original: DiagnosticReport|
        log_errors::is_contract_report(original, #[trigger] error.broken_rule()) && original.primary
            == report.primary && #[trigger] original.related == report.related
}

/// Whether `after` is the reason for dropping a run after the attempt to finish it: a refusal
/// becomes the reason.
pub open spec fn is_reason_after_finish(
    before: Option<DiagnosticReport>,
    outcome: Result<FinalizeRequest, FinishError>,
    after: Option<DiagnosticReport>,
) -> bool {
    match outcome {
        Ok(_) => after == before,
        Err(found) => after is Some && is_final_report(after->0, found),
    }
}

/// Whether `result` answers the request to close the log after it was sent, or after nobody
/// took it.
pub open spec fn is_finish_settled(
    account: log_runtime::Account,
    finished: bool,
    undelivered: Option<FinalizeRequest>,
    result: Result<(), FinishError>,
    account_after: log_runtime::Account,
    finished_after: bool,
    reason_after: Option<DiagnosticReport>,
) -> bool {
    match undelivered {
        None => {
            &&& result == Ok::<(), FinishError>(())
            &&& finished_after
            &&& reason_after is None
            &&& account_after == account
        },
        Some(request) => {
            &&& result == Err::<(), FinishError>(FinishError::ChannelClosed)
            &&& finished_after == finished
            &&& reason_after is Some
            &&& is_final_report(reason_after->0, FinishError::ChannelClosed)
            &&& account_after == request_lost(account, request)
        },
    }
}

/// Whether `request` is what a dropped run has to say: its outcome is unknown, for the reason
/// that was set. A finished run has nothing to add.
pub open spec fn is_dropped(
    before: log_runtime::Producers,
    account: log_runtime::Account,
    finished: bool,
    reason: Option<DiagnosticReport>,
    performance: RunPerformanceSnapshot,
    request: Option<FinalizeRequest>,
    after: log_runtime::Producers,
    account_after: log_runtime::Account,
) -> bool {
    let speaks = !finished && reason is Some && !before.progress.finalized;
    &&& finished ==> after == before
    &&& !finished ==> !after.progress.connected
    &&& account_after == if speaks && before.next_occurrence == u64::MAX {
        account.failed(ProjectLogFailureKey::OccurrenceIdExhausted)
    } else {
        account
    }
    &&& request is Some == (speaks && before.next_occurrence < u64::MAX && before.progress.connected)
    &&& request matches Some(request) ==> {
        &&& after.progress.finalized
        &&& request.performance == performance
        &&& request.terminal_diagnostics@.len() == 1
        &&& request.terminal_diagnostics@[0].identity().number() == before.next_occurrence
        &&& request.terminal_diagnostics@[0].about() == DiagnosticScope::Run
        &&& request.terminal_diagnostics@[0].reported() == reason->0
        &&& request.result == (RunFinished::OutcomeUnknown {
            diagnostic: request.terminal_diagnostics@[0].identity(),
        })
    }
}

/// The log of one run. Whoever drops it unfinished leaves a run of unknown outcome behind,
/// for the reason that is set here.
#[derive(Debug)]
pub struct ProjectLogRuntime {
    logger: ProjectLogger,
    drop_report: Option<DiagnosticReport>,
    finished: bool,
}

impl ProjectLogRuntime {
    pub closed spec fn log(&self) -> ProjectLogger {
        self.logger
    }

    /// The reason that is given when the run is dropped.
    pub closed spec fn reason(&self) -> Option<DiagnosticReport> {
        self.drop_report
    }

    pub closed spec fn is_finished(&self) -> bool {
        self.finished
    }

    pub closed spec fn well_formed(&self) -> bool {
        self.logger.well_formed()
    }

    pub fn new(logger: ProjectLogger, drop_report: DiagnosticReport) -> (runtime: Self)
        requires
            logger.well_formed(),
        ensures
            runtime.well_formed(),
            runtime.log() == logger,
            runtime.reason() == Some(drop_report),
            !runtime.is_finished(),
    {
        ProjectLogRuntime { logger, drop_report: Some(drop_report), finished: false }
    }

    pub fn logger(&self) -> (logger: &ProjectLogger)
        requires
            self.well_formed(),
        ensures
            *logger == self.log(),
            logger.well_formed(),
    {
        &self.logger
    }

    pub fn logger_mut(&mut self) -> (logger: &mut ProjectLogger)
        requires
            old(self).well_formed(),
        ensures
            *logger == old(self).log(),
            logger.well_formed(),
            final(self).log() == *final(logger),
            final(self).reason() == old(self).reason(),
            final(self).is_finished() == old(self).is_finished(),
            final(logger).well_formed() ==> final(self).well_formed(),
    {
        &mut self.logger
    }

    /// Changes the reason that is given when the run is dropped.
    pub fn replace_drop_report(&mut self, report: DiagnosticReport)
        requires
            old(self).well_formed(),
        ensures
            final(self).well_formed(),
            final(self).log() == old(self).log(),
            final(self).is_finished() == old(self).is_finished(),
            final(self).reason() == if old(self).is_finished() {
                old(self).reason()
            } else {
                Some(report)
            },
    {
        if !self.finished {
            self.drop_report = Some(report);
        }
    }

    fn give_up(&mut self, error: FinishError)
        requires
            old(self).well_formed(),
        ensures
            final(self).well_formed(),
            final(self).log() == old(self).log(),
            final(self).is_finished() == old(self).is_finished(),
            final(self).reason() is Some,
            is_final_report(final(self).reason()->0, error),
    {
        let original = error.diagnostic_report();
        let ghost kept = original;
        let report = original.with_effect(StateEffect::OutcomeUnknown);
        assert(log_errors::is_contract_report(kept, error.broken_rule()) && kept.primary
            == report.primary && kept.related == report.related);
        self.drop_report = Some(report);
    }

    /// Ends the run. When that is refused, the refusal becomes the reason for dropping it.
    pub fn finish(
        &mut self,
        result: RunFinished,
        terminal_diagnostics: Vec<PreparedTerminalDiagnostic>,
        performance: RunPerformanceSnapshot,
    ) -> (outcome: Result<FinalizeRequest, FinishError>)
        requires
            old(self).well_formed(),
        ensures
            final(self).well_formed(),
            final(self).is_finished() == old(self).is_finished(),
            final(self).log().within() == old(self).log().within(),
            log_runtime::is_finalized(
                old(self).log()@,
                old(self).log().within(),
                result,
                terminal_diagnostics@,
                performance,
                false,
                outcome,
                final(self).log()@,
            ),
            is_reason_after_finish(old(self).reason(), outcome, final(self).reason()),
    {
        match self.logger.finalize(result, terminal_diagnostics, performance, false) {
            Ok(request) => Ok(request),
            Err(error) => {
                self.give_up(error);
                Err(error)
            },
        }
    }

    /// Settles the request to close the log: `undelivered` is the request if nobody took it.
    pub fn finish_sent(&mut self, account: &mut LogAccount, undelivered: Option<FinalizeRequest>) -> (result:
        Result<(), FinishError>)
        requires
            old(self).well_formed(),
            old(account).well_formed(),
        ensures
            final(self).well_formed(),
            final(account).well_formed(),
            final(self).log() == old(self).log(),
            is_finish_settled(
                old(account)@,
                old(self).is_finished(),
                undelivered,
                result,
                final(account)@,
                final(self).is_finished(),
                final(self).reason(),
            ),
    {
        match undelivered {
            None => {
                self.finished = true;
                self.drop_report = None;
                Ok(())
            },
            Some(request) => {
                lose_request(&request, account);
                self.give_up(FinishError::ChannelClosed);
                Err(FinishError::ChannelClosed)
            },
        }
    }

    /// What to send when the run is dropped: its outcome is unknown, for the reason that
    /// was set. A finished run has nothing to add. Afterwards no producer is left, whether
    /// or not anything could be sent.
    pub fn close_unfinished(&mut self, account: &mut LogAccount, performance: RunPerformanceSnapshot) -> (request:
        Option<FinalizeRequest>)
        requires
            old(self).well_formed(),
            old(account).well_formed(),
        ensures
            final(self).well_formed(),
            final(account).well_formed(),
            final(self).is_finished(),
            old(self).is_finished() ==> final(self).log() == old(self).log(),
            is_dropped(
                old(self).log()@,
                old(account)@,
                old(self).is_finished(),
                old(self).reason(),
                performance,
                request,
                final(self).log()@,
                final(account)@,
            ),
    {
        if self.finished {
            return None;
        }
        let mut request = None;
        let mut reason = None;
        std::mem::swap(&mut reason, &mut self.drop_report);
        if let Some(report) = reason {
            if let Ok(prepared) = self.logger.prepare_terminal_diagnostic(
                account,
                DiagnosticScope::Run,
                report,
            ) {
                let result = RunFinished::OutcomeUnknown { diagnostic: prepared.id() };
                let ghost held = prepared.held();
                let mut terminal: Vec<PreparedTerminalDiagnostic> = Vec::new();
                terminal.push(prepared);
                let ghost progress = self.logger@.progress;
                let ghost listed = terminal@;
                proof {
                    let stranger = log_producer::unprepared(progress, listed);
                    assert(!stranger(0));
                    search::lemma_first_absent(stranger, 0, 1);
                    assert(log_producer::closes_with(listed, held.identity())) by {
                        assert(listed[0].held().identity() == held.identity());
                    }
                    let numbers = log_terminal::numbers_of(log_terminal::occurrences_of(listed));
                    assert forall|number: u64| !#[trigger] log_terminal::repeated(numbers, number) by {
                        if log_terminal::repeated(numbers, number) {
                            let places = log_terminal::lemma_two_places(numbers, number);
                        }
                    }
                }
                if let Ok(made) = self.logger.finalize(result, terminal, performance, true) {
                    proof {
                        lemma_single(made.terminal_diagnostics@, held, listed);
                    }
                    request = Some(made);
                }
            }
        }
        self.logger.close_producer();
        self.finished = true;
        request
    }
}

/// A list with the contents of a list of one is that list.
proof fn lemma_single(
    found: Seq<crate::log_event::DiagnosticOccurrence>,
    held: crate::log_event::DiagnosticOccurrence,
    listed: Seq<PreparedTerminalDiagnostic>,
)
    requires
        listed.len() == 1,
        listed[0].held() == held,
        found.to_multiset() == log_terminal::occurrences_of(listed).to_multiset(),
    ensures
        found.len() == 1,
        found[0] == held,
{
    let one = log_terminal::occurrences_of(listed);
    vstd::seq_lib::to_multiset_len(found);
    vstd::seq_lib::to_multiset_len(one);
    assert(found.contains(found[0]));
    vstd::seq_lib::to_multiset_contains(found, found[0]);
    vstd::seq_lib::to_multiset_contains(one, found[0]);
    let i = choose|i: int| 0 <= i < one.len() && one[i] == found[0];
    assert(one[0] == listed[0].held());
}

/// A request to close the log that nobody took.
pub open spec fn request_lost(account: log_runtime::Account, request: FinalizeRequest) -> log_runtime::Account {
    account.failed(
        ProjectLogFailureKey::ChannelClosed { code: Some(ProjectLogCode::RunFinished) },
    ).all_lost(log_writer::closing_codes(request))
}

/// Counts a request to close the log that nobody took.
pub fn lose_request(request: &FinalizeRequest, account: &mut LogAccount)
    requires
        old(account).well_formed(),
    ensures
        final(account).well_formed(),
        final(account)@ == request_lost(old(account)@, *request),
{
    account.record(
        ProjectLogFailureKey::ChannelClosed { code: Some(ProjectLogCode::RunFinished) },
    );
    record_unpersisted_finalize(request, account);
}

} // verus!
