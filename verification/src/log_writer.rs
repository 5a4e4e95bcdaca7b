//! Writing the project log: records, failures and the order in which a run is closed.

use vstd::prelude::*;
use crate::diagnostic::{copied_path, IoError, SafePath};
use crate::log_event::{
    DiagnosticOccurrence, ProjectLogCode, ProjectLogContext, ProjectLogEvent,
    ProjectLogFailureKey, ProjectLogHealthSnapshot, ProjectLogLevel, UiMessage,
};
use crate::log_runtime;
use crate::log_runtime::{FinalizeRequest, LogAccount, PermitKind, QueueItem};

verus! {

/// The RFC 3339 text of a moment, given in nanoseconds since the Unix epoch.
pub uninterp spec fn rfc3339_text(nanoseconds: int) -> Option<Seq<char>>;

/// Whether the moment lies in the years 0 to 9999 of universal time.
pub open spec fn has_four_digit_year(nanoseconds: int) -> bool {
    -62_167_219_200_000_000_000 <= nanoseconds < 253_402_300_800_000_000_000
}

/// `time::OffsetDateTime::format` with `time::format_description::well_known::Rfc3339`, for
/// the moment that `time::OffsetDateTime::from_unix_timestamp_nanos` makes of its argument.
/// Claimed: the text depends on the moment alone, and there is one exactly for the years 0
/// to 9999. What the text looks like is left to its name.
#[verifier::external_body]
fn rfc3339(nanoseconds: i128) -> (text: Option<String>)
    ensures
        match text {
            Some(text) => rfc3339_text(nanoseconds as int) == Some(text@),
            None => rfc3339_text(nanoseconds as int) is None,
        },
        text is Some == has_four_digit_year(nanoseconds as int),
{
    match time::OffsetDateTime::from_unix_timestamp_nanos(nanoseconds) {
        Ok(moment) => moment.format(&time::format_description::well_known::Rfc3339).ok(),
        Err(_) => None,
    }
}

/// A record could not be built.
#[derive(Clone, Copy, Debug, PartialEq, Eq, Structural)]
pub struct RecordBuildError;

/// One line of the log.
#[derive(Debug)]
pub struct ProjectLogRecord {
    pub timestamp: String,
    pub sequence: u64,
    pub run_id: String,
    pub level: ProjectLogLevel,
    pub code: ProjectLogCode,
    pub context: ProjectLogContext,
    pub payload: ProjectLogEvent,
    pub message: UiMessage,
}

impl ProjectLogRecord {
    /// The record of an event. Records are numbered from one.
    pub fn new(
        timestamp: i128,
        sequence: u64,
        run_id: &str,
        context: &ProjectLogContext,
        payload: ProjectLogEvent,
    ) -> (result: Result<Self, RecordBuildError>)
        ensures
            result is Ok == (sequence != 0 && has_four_digit_year(timestamp as int)),
            result matches Ok(record) ==> {
                &&& rfc3339_text(timestamp as int) == Some(record.timestamp@)
                &&& record.is_of(sequence, run_id@, *context, payload)
            },
    {
        let text = rfc3339(timestamp);
        Self::with_timestamp(text, sequence, run_id, context, payload)
    }

    /// The record of an event whose timestamp is already a text, if it could be one.
    pub fn with_timestamp(
        timestamp: Option<String>,
        sequence: u64,
        run_id: &str,
        context: &ProjectLogContext,
        payload: ProjectLogEvent,
    ) -> (result: Result<Self, RecordBuildError>)
        ensures
            result is Ok == (sequence != 0 && timestamp is Some),
            result matches Ok(record) ==> {
                &&& record.timestamp@ == timestamp->0@
                &&& record.is_of(sequence, run_id@, *context, payload)
            },
    {
        if sequence == 0 {
            return Err(RecordBuildError);
        }
        match timestamp {
            Some(timestamp) => Ok(
                ProjectLogRecord {
                    timestamp,
                    sequence,
                    run_id: String::from_str(run_id),
                    level: payload.level(),
                    code: payload.code(),
                    context: context.clone(),
                    message: payload.message(context),
                    payload,
                },
            ),
            None => Err(RecordBuildError),
        }
    }

    /// Whether the record tells of `payload` with this number in this run.
    pub open spec fn is_of(
        &self,
        sequence: u64,
        run_id: Seq<char>,
        context: ProjectLogContext,
        payload: ProjectLogEvent,
    ) -> bool {
        &&& self.sequence == sequence
        &&& self.run_id@ == run_id
        &&& self.level == payload.urgency()
        &&& self.code == payload.kind()
        &&& self.context == context
        &&& self.payload == payload
        &&& payload.is_described_by(context.for_command(), self.message)
    }
}

/// What the writer does after an attempt to write an event. A failure to serialize leaves
/// the file usable; after the first failure to write nothing is written any more.
#[derive(Clone, Copy, Debug, PartialEq, Eq, Structural)]
pub enum PersistDisposition {
    Continue,
    WriteDisabled,
    Panicked,
}

/// The next thing to do for an event.
#[derive(Debug)]
pub enum PersistStep {
    Settled(PersistDisposition),
    Encode(ProjectLogRecord),
}

/// How encoding and writing a record went.
#[derive(Debug)]
pub enum PersistAttempt {
    Written,
    NotEncoded,
    NotWritten(IoError),
    Panicked,
}

/// How flushing and synchronizing the file went.
#[derive(Debug, PartialEq, Eq)]
pub enum FlushAttempt {
    Ended { flushed: Result<(), IoError>, synced: Result<(), IoError> },
    PanickedFlushing,
    PanickedSynchronizing { flushed: Result<(), IoError> },
}

impl log_runtime::Account {
    /// Events of this code did not reach the file.
    pub open spec fn lost(self, code: ProjectLogCode) -> Self {
        self.failed(ProjectLogFailureKey::NotPersisted { code })
    }

    /// Events of these codes did not reach the file.
    pub open spec fn all_lost(self, codes: Seq<ProjectLogCode>) -> Self
        decreases codes.len(),
    {
        if codes.len() == 0 {
            self
        } else {
            self.all_lost(codes.drop_last()).lost(codes.last())
        }
    }

    /// Events of these codes get no number, and are lost.
    pub open spec fn all_unnumbered(self, codes: Seq<ProjectLogCode>) -> Self
        decreases codes.len(),
    {
        if codes.len() == 0 {
            self
        } else {
            self.all_unnumbered(codes.drop_last()).failed(
                ProjectLogFailureKey::SequenceExhausted,
            ).lost(codes.last())
        }
    }
}

/// The failure of a write.
pub open spec fn write_failure(
    path: Option<SafePath>,
    code: ProjectLogCode,
    error: IoError,
) -> ProjectLogFailureKey {
    ProjectLogFailureKey::Write { path, code, io_kind: error.kind, raw_os_code: error.raw_os_code }
}

/// The writer of one run's log.
#[derive(Debug)]
pub struct WriterState {
    context: ProjectLogContext,
    run_id: String,
    path: Option<SafePath>,
    write_disabled: bool,
}

impl WriterState {
    pub closed spec fn within(&self) -> ProjectLogContext {
        self.context
    }

    pub closed spec fn run(&self) -> Seq<char> {
        self.run_id@
    }

    pub closed spec fn file(&self) -> Option<SafePath> {
        self.path
    }

    /// Whether nothing is written any more.
    pub closed spec fn gave_up(&self) -> bool {
        self.write_disabled
    }

    pub open spec fn same_log(&self, other: Self) -> bool {
        self.within() == other.within() && self.run() == other.run() && self.file() == other.file()
    }

    pub fn new(context: ProjectLogContext, run_id: String, path: Option<SafePath>) -> (writer: Self)
        ensures
            writer.within() == context,
            writer.run() == run_id@,
            writer.file() == path,
            !writer.gave_up(),
    {
        WriterState { context, run_id, path, write_disabled: false }
    }

    /// Builds the record of an event, unless writing it is known to be pointless.
    pub fn begin_persist(
        &self,
        account: &mut LogAccount,
        emitted_at: i128,
        sequence: u64,
        event: ProjectLogEvent,
    ) -> (step: PersistStep)
        requires
            old(account).well_formed(),
        ensures
            final(account).well_formed(),
            match step {
                PersistStep::Encode(record) => {
                    &&& !self.gave_up() && sequence != 0 && has_four_digit_year(emitted_at as int)
                    &&& rfc3339_text(emitted_at as int) == Some(record.timestamp@)
                    &&& record.is_of(sequence, self.run(), self.within(), event)
                    &&& final(account)@ == old(account)@
                },
                PersistStep::Settled(disposition) => {
                    &&& disposition == PersistDisposition::Continue
                    &&& self.gave_up() || sequence == 0 || !has_four_digit_year(emitted_at as int)
                    &&& final(account)@ == if self.gave_up() {
                        old(account)@.lost(event.kind())
                    } else {
                        old(account)@.failed(
                            ProjectLogFailureKey::Serialize { path: self.file(), code: event.kind() },
                        ).lost(event.kind())
                    }
                },
            },
    {
        let code = event.code();
        if self.write_disabled {
            account.record(ProjectLogFailureKey::NotPersisted { code });
            return PersistStep::Settled(PersistDisposition::Continue);
        }
        match ProjectLogRecord::new(emitted_at, sequence, self.run_id.as_str(), &self.context, event) {
            Ok(record) => PersistStep::Encode(record),
            Err(_) => {
                account.record(ProjectLogFailureKey::Serialize { path: copied_path(&self.path), code });
                account.record(ProjectLogFailureKey::NotPersisted { code });
                PersistStep::Settled(PersistDisposition::Continue)
            },
        }
    }

    /// Takes note of how encoding and writing went.
    pub fn end_persist(&mut self, account: &mut LogAccount, code: ProjectLogCode, attempt: PersistAttempt) -> (disposition:
        PersistDisposition)
        requires
            old(account).well_formed(),
        ensures
            final(account).well_formed(),
            final(self).same_log(*old(self)),
            final(self).gave_up() == (old(self).gave_up() || attempt is NotWritten),
            final(account)@ == (match attempt {
                PersistAttempt::Written => old(account)@,
                PersistAttempt::NotEncoded => old(account)@.failed(
                    ProjectLogFailureKey::Serialize { path: old(self).file(), code },
                ).lost(code),
                PersistAttempt::NotWritten(error) => old(account)@.failed(
                    write_failure(old(self).file(), code, error),
                ).lost(code),
                PersistAttempt::Panicked => old(account)@.lost(code),
            }),
            disposition == (match attempt {
                PersistAttempt::NotWritten(_) => PersistDisposition::WriteDisabled,
                PersistAttempt::Panicked => PersistDisposition::Panicked,
                _ => PersistDisposition::Continue,
            }),
    {
        match attempt {
            PersistAttempt::Written => PersistDisposition::Continue,
            PersistAttempt::NotEncoded => {
                account.record(ProjectLogFailureKey::Serialize { path: copied_path(&self.path), code });
                account.record(ProjectLogFailureKey::NotPersisted { code });
                PersistDisposition::Continue
            },
            PersistAttempt::NotWritten(error) => {
                account.record(
                    ProjectLogFailureKey::Write {
                        path: copied_path(&self.path),
                        code,
                        io_kind: error.kind,
                        raw_os_code: error.raw_os_code,
                    },
                );
                account.record(ProjectLogFailureKey::NotPersisted { code });
                self.write_disabled = true;
                PersistDisposition::WriteDisabled
            },
            PersistAttempt::Panicked => {
                account.record(ProjectLogFailureKey::NotPersisted { code });
                PersistDisposition::Panicked
            },
        }
    }

    /// The account after the file was flushed.
    pub open spec fn noted_flush(&self, account: log_runtime::Account, flushed: Result<(), IoError>) -> log_runtime::Account {
        match flushed {
            Ok(_) => account,
            Err(error) => account.failed(
                ProjectLogFailureKey::Flush {
                    path: self.file(),
                    io_kind: error.kind,
                    raw_os_code: error.raw_os_code,
                },
            ),
        }
    }

    /// The account after the file was synchronized.
    pub open spec fn noted_sync(&self, account: log_runtime::Account, synced: Result<(), IoError>) -> log_runtime::Account {
        match synced {
            Ok(_) => account,
            Err(error) => account.failed(
                ProjectLogFailureKey::Sync {
                    path: self.file(),
                    io_kind: error.kind,
                    raw_os_code: error.raw_os_code,
                },
            ),
        }
    }

    /// Takes note of how the file was flushed and then synchronized; says whether that came
    /// to an end at all.
    pub fn flush_and_sync(&self, account: &mut LogAccount, attempt: FlushAttempt) -> (ended: bool)
        requires
            old(account).well_formed(),
        ensures
            final(account).well_formed(),
            ended == (attempt is Ended),
            final(account)@ == (match attempt {
                FlushAttempt::Ended { flushed, synced } => self.noted_sync(
                    self.noted_flush(old(account)@, flushed),
                    synced,
                ),
                FlushAttempt::PanickedFlushing => old(account)@.failed(
                    ProjectLogFailureKey::WorkerPanicked,
                ),
                FlushAttempt::PanickedSynchronizing { flushed } => self.noted_flush(
                    old(account)@,
                    flushed,
                ).failed(ProjectLogFailureKey::WorkerPanicked),
            }),
    {
        match attempt {
            FlushAttempt::Ended { flushed, synced } => {
                self.flush_and_sync_without_panic(account, flushed, synced);
                true
            },
            FlushAttempt::PanickedFlushing => {
                account.record(ProjectLogFailureKey::WorkerPanicked);
                false
            },
            FlushAttempt::PanickedSynchronizing { flushed } => {
                self.flush_and_sync_without_panic(account, flushed, Ok(()));
                account.record(ProjectLogFailureKey::WorkerPanicked);
                false
            },
        }
    }

    /// Takes note of how flushing and then synchronizing the file went. Both are tried,
    /// whatever came of the first.
    pub fn flush_and_sync_without_panic(
        &self,
        account: &mut LogAccount,
        flushed: Result<(), IoError>,
        synced: Result<(), IoError>,
    )
        requires
            old(account).well_formed(),
        ensures
            final(account).well_formed(),
            final(account)@ == self.noted_sync(self.noted_flush(old(account)@, flushed), synced),
    {
        if let Err(error) = flushed {
            account.record(
                ProjectLogFailureKey::Flush {
                    path: copied_path(&self.path),
                    io_kind: error.kind,
                    raw_os_code: error.raw_os_code,
                },
            );
        }
        if let Err(error) = synced {
            account.record(
                ProjectLogFailureKey::Sync {
                    path: copied_path(&self.path),
                    io_kind: error.kind,
                    raw_os_code: error.raw_os_code,
                },
            );
        }
    }
}

/// The codes of the events.
pub open spec fn codes_of(events: Seq<ProjectLogEvent>) -> Seq<ProjectLogCode> {
    events.map_values(|event: ProjectLogEvent| event.kind())
}

/// The closing diagnostics as events.
pub open spec fn diagnostic_events(occurrences: Seq<DiagnosticOccurrence>) -> Seq<ProjectLogEvent> {
    occurrences.map_values(
        |occurrence: DiagnosticOccurrence| ProjectLogEvent::Diagnostic { occurrence },
    )
}

/// The events that close a run, in order: what went wrong with the log, the performance
/// counters, the closing diagnostics and the result.
pub open spec fn closing_events(
    request: FinalizeRequest,
    degraded: ProjectLogHealthSnapshot,
) -> Seq<ProjectLogEvent> {
    let first = if degraded.failures@.len() == 0 {
        Seq::<ProjectLogEvent>::empty()
    } else {
        seq![ProjectLogEvent::ProjectLogDegraded { health: degraded }]
    };
    (first.push(ProjectLogEvent::PerformanceCounters { snapshot: request.performance })
        + diagnostic_events(request.terminal_diagnostics@)).push(
        ProjectLogEvent::RunFinished { result: request.result },
    )
}

/// The result of a run closes its log, and is told once.
pub proof fn run_finished_is_last(request: FinalizeRequest, degraded: ProjectLogHealthSnapshot)
    ensures
        ({
            let events = closing_events(request, degraded);
            &&& events.len() >= 2
            &&& events.last() == (ProjectLogEvent::RunFinished { result: request.result })
            &&& forall|i: int|
                0 <= i < events.len() - 1 ==> !(#[trigger] events[i] is RunFinished)
        }),
{
    let events = closing_events(request, degraded);
    let first = if degraded.failures@.len() == 0 {
        Seq::<ProjectLogEvent>::empty()
    } else {
        seq![ProjectLogEvent::ProjectLogDegraded { health: degraded }]
    };
    let diagnostics = diagnostic_events(request.terminal_diagnostics@);
    assert forall|i: int| 0 <= i < events.len() - 1 implies !(#[trigger] events[i] is RunFinished) by {
        if i > first.len() {
            assert(events[i] == diagnostics[i - first.len() - 1]);
        }
    }
}

proof fn lemma_next(
    all: Seq<ProjectLogEvent>,
    done: int,
    event: ProjectLogEvent,
    rest: Seq<ProjectLogEvent>,
)
    requires
        0 <= done < all.len(),
        all.skip(done) == seq![event] + rest,
    ensures
        all[done] == event,
        all.skip(done + 1) == rest,
{
    assert(all.skip(done)[0] == all[done]);
    assert((seq![event] + rest)[0] == seq![event][0]);
    assert(seq![event][0] == event);
    assert((seq![event] + rest).skip(1) =~= rest);
    assert(all.skip(done).skip(1) =~= all.skip(done + 1));
}

/// The events that close a run and are still to be written.
#[derive(Debug)]
pub struct TerminalSequence {
    /// The next event is the last.
    remaining: Vec<ProjectLogEvent>,
}

impl View for TerminalSequence {
    type V = Seq<ProjectLogEvent>;

    closed spec fn view(&self) -> Seq<ProjectLogEvent> {
        self.remaining@.reverse()
    }
}

impl TerminalSequence {
    pub fn new(request: FinalizeRequest, degraded: ProjectLogHealthSnapshot) -> (sequence: Self)
        ensures
            sequence@ == closing_events(request, degraded),
    {
        let mut remaining: Vec<ProjectLogEvent> = Vec::new();
        remaining.push(ProjectLogEvent::RunFinished { result: request.result });
        let mut diagnostics = request.terminal_diagnostics;
        let ghost all = diagnostics@;
        let ghost finished = ProjectLogEvent::RunFinished { result: request.result };
        assert(diagnostic_events(all.skip(all.len() as int)).push(finished) =~= remaining@.reverse());
        while diagnostics.len() > 0
            invariant
                diagnostics.len() <= all.len(),
                diagnostics@ == all.take(diagnostics.len() as int),
                remaining@.reverse() == diagnostic_events(all.skip(diagnostics.len() as int)).push(
                    finished,
                ),
            decreases diagnostics.len(),
        {
            let ghost count = diagnostics.len() as int;
            let ghost earlier = remaining@;
            if let Some(occurrence) = diagnostics.pop() {
                remaining.push(ProjectLogEvent::Diagnostic { occurrence });
                proof {
                    assert(occurrence == all[count - 1]);
                    assert(remaining@.reverse() =~= seq![ProjectLogEvent::Diagnostic { occurrence }]
                        + earlier.reverse());
                    assert(all.skip(count - 1) =~= seq![occurrence] + all.skip(count));
                    assert(diagnostic_events(all.skip(count - 1)).push(finished) =~= seq![
                        ProjectLogEvent::Diagnostic { occurrence },
                    ] + diagnostic_events(all.skip(count)).push(finished));
                    assert(diagnostics@ =~= all.take(count - 1));
                }
            }
        }
        assert(all.skip(0) =~= all);
        let ghost earlier = remaining@;
        remaining.push(ProjectLogEvent::PerformanceCounters { snapshot: request.performance });
        assert(remaining@.reverse() =~= seq![
            ProjectLogEvent::PerformanceCounters { snapshot: request.performance },
        ] + earlier.reverse());
        if degraded.is_healthy() {
            assert(remaining@.reverse() =~= closing_events(request, degraded));
            return TerminalSequence { remaining };
        }
        let ghost counted = remaining@;
        remaining.push(ProjectLogEvent::ProjectLogDegraded { health: degraded });
        assert(remaining@.reverse() =~= seq![
            ProjectLogEvent::ProjectLogDegraded { health: degraded },
        ] + counted.reverse());
        assert(remaining@.reverse() =~= closing_events(request, degraded));
        TerminalSequence { remaining }
    }

    /// The next event with its number. Events that get no number are lost, one by one.
    pub fn next_event(&mut self, account: &mut LogAccount) -> (next: Option<(u64, ProjectLogEvent)>)
        requires
            old(account).well_formed(),
        ensures
            final(account).well_formed(),
            match next {
                Some((sequence, event)) => {
                    &&& old(self)@.len() > 0
                    &&& old(account)@.numbered() == (final(account)@, Some(sequence))
                    &&& old(self)@ == seq![event] + final(self)@
                },
                None => {
                    &&& final(self)@.len() == 0
                    &&& old(self)@.len() == 0 || old(account)@.next_sequence == u64::MAX
                    &&& final(account)@ == old(account)@.all_unnumbered(codes_of(old(self)@))
                },
            },
    {
        let ghost all = self@;
        let ghost before = account@;
        assert(codes_of(all.take(0)) =~= Seq::<ProjectLogCode>::empty());
        assert(all.skip(0) =~= all);
        while self.remaining.len() > 0
            invariant
                account.well_formed(),
                self.remaining.len() <= all.len(),
                self@ == all.skip(all.len() - self.remaining.len()),
                account@ == before.all_unnumbered(codes_of(all.take(all.len() - self.remaining.len()))),
                self.remaining.len() < all.len() ==> before.next_sequence == u64::MAX,
                account@.next_sequence == before.next_sequence,
                all == old(self)@,
                before == old(account)@,
                self.remaining.len() == all.len() ==> account@ == before,
            decreases self.remaining.len(),
        {
            let ghost done = all.len() - self.remaining.len();
            let ghost earlier = self.remaining@;
            if let Some(event) = self.remaining.pop() {
                proof {
                    assert(earlier.reverse() =~= seq![event] + self.remaining@.reverse());
                    lemma_next(all, done, event, self@);
                    assert(all.take(done + 1).drop_last() =~= all.take(done));
                    assert(codes_of(all.take(done + 1)) =~= codes_of(all.take(done)).push(
                        event.kind(),
                    ));
                    assert(codes_of(all.take(done + 1)).drop_last() =~= codes_of(all.take(done)));
                }
                let code = event.code();
                match account.allocate_sequence() {
                    Some(sequence) => {
                        assert(done == 0);
                        return Some((sequence, event));
                    },
                    None => {
                        account.record(ProjectLogFailureKey::NotPersisted { code });
                    },
                }
            }
        }
        assert(all.take(all.len() as int) =~= all);
        None
    }

    /// Gives up on what is left.
    pub fn abandon(self, account: &mut LogAccount)
        requires
            old(account).well_formed(),
        ensures
            final(account).well_formed(),
            final(account)@ == old(account)@.all_lost(codes_of(self@)),
    {
        let mut remaining = self.remaining;
        let ghost all = self@;
        let ghost before = account@;
        assert(codes_of(all.take(0)) =~= Seq::<ProjectLogCode>::empty());
        assert(all.skip(0) =~= all);
        while remaining.len() > 0
            invariant
                account.well_formed(),
                remaining.len() <= all.len(),
                remaining@.reverse() == all.skip(all.len() - remaining.len()),
                account@ == before.all_lost(codes_of(all.take(all.len() - remaining.len()))),
            decreases remaining.len(),
        {
            let ghost done = all.len() - remaining.len();
            let ghost earlier = remaining@;
            if let Some(event) = remaining.pop() {
                proof {
                    assert(earlier.reverse() =~= seq![event] + remaining@.reverse());
                    lemma_next(all, done, event, remaining@.reverse());
                    assert(codes_of(all.take(done + 1)) =~= codes_of(all.take(done)).push(
                        event.kind(),
                    ));
                    assert(codes_of(all.take(done + 1)).drop_last() =~= codes_of(all.take(done)));
                }
                account.record(ProjectLogFailureKey::NotPersisted { code: event.code() });
            }
        }
        assert(all.take(all.len() as int) =~= all);
    }
}

/// The codes of the closing diagnostics.
pub open spec fn scope_codes(occurrences: Seq<DiagnosticOccurrence>) -> Seq<ProjectLogCode> {
    occurrences.map_values(|occurrence: DiagnosticOccurrence| occurrence.about().event_code())
}

/// What is lost when a request to close the log is not served.
pub open spec fn closing_codes(request: FinalizeRequest) -> Seq<ProjectLogCode> {
    (seq![ProjectLogCode::ProjectLogDegraded, ProjectLogCode::PerformanceCounters] + scope_codes(
        request.terminal_diagnostics@,
    )).push(ProjectLogCode::RunFinished)
}

/// Counts everything that a request to close the log would have written.
pub fn record_unpersisted_finalize(request: &FinalizeRequest, account: &mut LogAccount)
    requires
        old(account).well_formed(),
    ensures
        final(account).well_formed(),
        final(account)@ == old(account)@.all_lost(closing_codes(*request)),
{
    let ghost before = account@;
    let ghost codes = closing_codes(*request);
    let ghost scopes = scope_codes(request.terminal_diagnostics@);
    account.record(ProjectLogFailureKey::NotPersisted { code: ProjectLogCode::ProjectLogDegraded });
    account.record(ProjectLogFailureKey::NotPersisted { code: ProjectLogCode::PerformanceCounters });
    proof {
        assert(codes.take(0).len() == 0);
        assert(codes.take(1).drop_last() =~= codes.take(0));
        assert(codes.take(2).drop_last() =~= codes.take(1));
        assert(before.all_lost(codes.take(0)) == before);
        assert(before.all_lost(codes.take(1)) == before.lost(ProjectLogCode::ProjectLogDegraded));
    }
    let mut i: usize = 0;
    while i < request.terminal_diagnostics.len()
        invariant
            account.well_formed(),
            i <= request.terminal_diagnostics.len(),
            codes == closing_codes(*request),
            scopes == scope_codes(request.terminal_diagnostics@),
            account@ == before.all_lost(codes.take(i + 2)),
        decreases request.terminal_diagnostics.len() - i,
    {
        let code = request.terminal_diagnostics[i].scope().code();
        account.record(ProjectLogFailureKey::NotPersisted { code });
        proof {
            assert(scopes[i as int] == code);
            assert(codes[i + 2] == scopes[i as int]);
            assert(codes.take(i + 3).drop_last() =~= codes.take(i + 2));
        }
        i += 1;
    }
    account.record(ProjectLogFailureKey::NotPersisted { code: ProjectLogCode::RunFinished });
    proof {
        assert(codes.drop_last() =~= codes.take(i + 2));
    }
}

/// What is lost when an item is taken from the queue and not written.
pub open spec fn discarded(account: log_runtime::Account, item: QueueItem) -> log_runtime::Account {
    match item {
        QueueItem::Event(queued) => account.lost(queued.event.kind()).released(queued.permit),
        QueueItem::Finalize(request) => account.all_lost(closing_codes(request)),
    }
}

/// Takes an item from the queue without writing it.
pub fn discard(item: QueueItem, account: &mut LogAccount)
    requires
        old(account).well_formed(),
        item matches QueueItem::Event(queued) ==> queued.permit == PermitKind::BestEffort ==> old(
            account,
        )@.waiting > 0,
    ensures
        final(account).well_formed(),
        final(account)@ == discarded(old(account)@, item),
{
    match item {
        QueueItem::Event(queued) => {
            account.record(ProjectLogFailureKey::NotPersisted { code: queued.event.code() });
            account.release(queued.permit);
        },
        QueueItem::Finalize(request) => {
            record_unpersisted_finalize(&request, account);
        },
    }
}

/// What the writer does with the queue after an event.
#[derive(Clone, Copy, Debug, PartialEq, Eq, Structural)]
pub enum WriterAction {
    /// Wait for the next item.
    Receive,
    /// Discard what waits now, then go on receiving.
    DiscardPending,
    /// Take nothing more, discard what waits and stop.
    Stop,
}

/// Settles an event after the attempt to write it: its place in the queue is free again.
pub fn after_event(account: &mut LogAccount, permit: PermitKind, disposition: PersistDisposition) -> (action:
    WriterAction)
    requires
        old(account).well_formed(),
        permit == PermitKind::BestEffort ==> old(account)@.waiting > 0,
    ensures
        final(account).well_formed(),
        final(account)@ == old(account)@.released(permit),
        action == (match disposition {
            PersistDisposition::Continue => WriterAction::Receive,
            PersistDisposition::WriteDisabled => WriterAction::DiscardPending,
            PersistDisposition::Panicked => WriterAction::Stop,
        }),
{
    account.release(permit);
    match disposition {
        PersistDisposition::Continue => WriterAction::Receive,
        PersistDisposition::WriteDisabled => WriterAction::DiscardPending,
        PersistDisposition::Panicked => WriterAction::Stop,
    }
}

/// The writer stops because of a panic; what waited has been discarded.
pub fn stopped_by_panic(account: &mut LogAccount)
    requires
        old(account).well_formed(),
    ensures
        final(account).well_formed(),
        final(account)@ == old(account)@.failed(ProjectLogFailureKey::WorkerPanicked),
{
    account.record(ProjectLogFailureKey::WorkerPanicked);
}

/// The queue was closed without an end of the run; none is made up.
pub fn queue_closed(account: &mut LogAccount)
    requires
        old(account).well_formed(),
    ensures
        final(account).well_formed(),
        final(account)@ == old(account)@.failed(ProjectLogFailureKey::ChannelClosed { code: None }),
{
    account.record(ProjectLogFailureKey::ChannelClosed { code: None });
}

} // verus!
