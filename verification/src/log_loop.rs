//! The writer at work: it takes items from the queue one after another, until the log is
//! closed or cannot be written any more.

use vstd::pervasive::unreached;
use vstd::prelude::*;
use crate::log_event::{
    ProjectLogCode, ProjectLogEvent, ProjectLogFailureKey, ProjectLogHealthSnapshot,
};
use crate::log_runtime;
use crate::log_runtime::{LogAccount, PermitKind, QueueItem, QueuedEvent};
use crate::log_writer;
use crate::log_writer::{
    after_event, discard, queue_closed, stopped_by_panic, FlushAttempt, PersistAttempt,
    PersistDisposition, PersistStep, ProjectLogRecord, TerminalSequence, WriterAction, WriterState,
};

verus! {

/// What follows once nothing waits any more.
#[derive(Clone, Copy, Debug, PartialEq, Eq, Structural)]
pub enum Afterwards {
    Receive,
    StopAfterPanic,
    Finish,
}

/// Where the writer stands.
#[derive(Debug)]
enum LoopState {
    Receiving,
    Writing { record: ProjectLogRecord, permit: PermitKind },
    ClosingQueue,
    Discarding { then: Afterwards },
    Dating { remaining: TerminalSequence, number: u64, event: ProjectLogEvent },
    WritingLast { remaining: TerminalSequence, record: ProjectLogRecord },
    Flushing { then_discard: bool },
    Finished,
}

/// Where the writer stands, with the events that are still to close the run.
pub ghost enum Stage {
    Receiving,
    /// The record of an event is being encoded and written.
    Writing { record: ProjectLogRecord, permit: PermitKind },
    /// Nothing more may enter the queue.
    ClosingQueue,
    /// What waits is thrown away, and counted.
    Discarding { then: Afterwards },
    /// The moment of a closing event is to be read.
    Dating { remaining: Seq<ProjectLogEvent>, number: u64, event: ProjectLogEvent },
    /// The record of a closing event is being encoded and written.
    WritingLast { remaining: Seq<ProjectLogEvent>, record: ProjectLogRecord },
    Flushing { then_discard: bool },
    Finished,
}

impl LoopState {
    spec fn stage(self) -> Stage {
        match self {
            LoopState::Receiving => Stage::Receiving,
            LoopState::Writing { record, permit } => Stage::Writing { record, permit },
            LoopState::ClosingQueue => Stage::ClosingQueue,
            LoopState::Discarding { then } => Stage::Discarding { then },
            LoopState::Dating { remaining, number, event } => Stage::Dating {
                remaining: remaining@,
                number,
                event,
            },
            LoopState::WritingLast { remaining, record } => Stage::WritingLast {
                remaining: remaining@,
                record,
            },
            LoopState::Flushing { then_discard } => Stage::Flushing { then_discard },
            LoopState::Finished => Stage::Finished,
        }
    }
}

#[derive(Debug)]
pub enum LoopRequest<'a> {
    /// Wait for the next item of the queue.
    Receive,
    /// Encode the record and write it as a line.
    Write { record: &'a ProjectLogRecord },
    CloseQueue,
    /// Take the next item of the queue without waiting.
    TakeWaiting,
    ReadClock,
    /// Flush the file, then synchronize it.
    Flush,
    Nothing,
}

#[derive(Debug)]
pub enum LoopReply {
    /// `None` is a queue that was closed.
    Received(Option<QueueItem>),
    Attempted(PersistAttempt),
    QueueClosed,
    Taken(Option<QueueItem>),
    /// Nanoseconds since the Unix epoch.
    Time(i128),
    Flushed(FlushAttempt),
}

/// Whether an event can become a record at all.
pub open spec fn can_be_recorded(writer: WriterState, emitted_at: i128, sequence: u64) -> bool {
    !writer.gave_up() && sequence != 0 && log_writer::has_four_digit_year(emitted_at as int)
}

/// Whether `record` tells of an event.
pub open spec fn is_record(
    writer: WriterState,
    emitted_at: i128,
    sequence: u64,
    event: ProjectLogEvent,
    record: ProjectLogRecord,
) -> bool {
    &&& log_writer::rfc3339_text(emitted_at as int) == Some(record.timestamp@)
    &&& record.is_of(sequence, writer.run(), writer.within(), event)
}

/// The account after an event did not become a record.
pub open spec fn unrecorded(
    writer: WriterState,
    account: log_runtime::Account,
    code: ProjectLogCode,
) -> log_runtime::Account {
    if writer.gave_up() {
        account.lost(code)
    } else {
        account.failed(
            ProjectLogFailureKey::Serialize { path: writer.file(), code },
        ).lost(code)
    }
}

/// The account after an attempt to write a record.
pub open spec fn attempted(
    writer: WriterState,
    account: log_runtime::Account,
    code: ProjectLogCode,
    attempt: PersistAttempt,
) -> log_runtime::Account {
    match attempt {
        PersistAttempt::Written => account,
        PersistAttempt::NotEncoded => account.failed(
            ProjectLogFailureKey::Serialize { path: writer.file(), code },
        ).lost(code),
        PersistAttempt::NotWritten(error) => account.failed(
            log_writer::write_failure(writer.file(), code, error),
        ).lost(code),
        PersistAttempt::Panicked => account.lost(code),
    }
}

/// The account after the file was flushed.
pub open spec fn flushed(
    writer: WriterState,
    account: log_runtime::Account,
    attempt: FlushAttempt,
) -> log_runtime::Account {
    let panicked = ProjectLogFailureKey::WorkerPanicked;
    match attempt {
        FlushAttempt::Ended { flushed, synced } => writer.noted_sync(
            writer.noted_flush(account, flushed),
            synced,
        ),
        FlushAttempt::PanickedFlushing => account.failed(panicked),
        FlushAttempt::PanickedSynchronizing { flushed } => writer.noted_flush(
            account,
            flushed,
        ).failed(panicked),
    }
}

/// The stage and the account when `events` are still to close the run. Without a number an
/// event is lost.
pub open spec fn closing(events: Seq<ProjectLogEvent>, account: log_runtime::Account) -> (
    Stage,
    log_runtime::Account,
) {
    match (events.len() == 0, account.numbered()) {
        (false, (after, Some(number))) => (
            Stage::Dating { remaining: events.skip(1), number, event: events[0] },
            after,
        ),
        _ => (
            Stage::Flushing { then_discard: true },
            account.all_unnumbered(log_writer::codes_of(events)),
        ),
    }
}

impl Stage {
    pub open spec fn expects(self, reply: LoopReply) -> bool {
        match self {
            Stage::Receiving => reply is Received,
            Stage::Writing { .. } => reply is Attempted,
            Stage::ClosingQueue => reply is QueueClosed,
            Stage::Discarding { .. } => reply is Taken,
            Stage::Dating { .. } => reply is Time,
            Stage::WritingLast { .. } => reply is Attempted,
            Stage::Flushing { .. } => reply is Flushed,
            Stage::Finished => false,
        }
    }

    /// Whether the place of a best-effort event that is settled now is taken.
    pub open spec fn fits(self, reply: LoopReply, account: log_runtime::Account) -> bool {
        let settled = match (self, reply) {
            (Stage::Writing { permit, .. }, _) => permit,
            (_, LoopReply::Received(Some(QueueItem::Event(queued)))) => queued.permit,
            (_, LoopReply::Taken(Some(QueueItem::Event(queued)))) => queued.permit,
            _ => PermitKind::Required,
        };
        settled == PermitKind::BestEffort ==> account.waiting > 0
    }

    /// Whether `next` and the account `after` come after an item was received.
    pub open spec fn after_receiving(
        writer: WriterState,
        item: Option<QueueItem>,
        before: log_runtime::Account,
        next: Stage,
        after: log_runtime::Account,
    ) -> bool {
        match item {
            Some(QueueItem::Event(queued)) => if can_be_recorded(
                writer,
                queued.emitted_at,
                queued.sequence,
            ) {
                &&& next matches Stage::Writing { record, permit }
                &&& permit == queued.permit
                &&& is_record(writer, queued.emitted_at, queued.sequence, queued.event, record)
                &&& after == before
            } else {
                &&& next == Stage::Receiving
                &&& after == unrecorded(writer, before, queued.event.kind()).released(queued.permit)
            },
            Some(QueueItem::Finalize(request)) => exists|degraded: ProjectLogHealthSnapshot| #[trigger]
                before.health.is_shown_by(degraded) && closing(
                    log_writer::closing_events(request, degraded),
                    before,
                ) == (next, after),
            None => {
                &&& next == (Stage::Flushing { then_discard: false })
                &&& after == before.failed(
                    ProjectLogFailureKey::ChannelClosed { code: None },
                )
            },
        }
    }

    /// Whether `next` and the account `after` come after this stage and the account
    /// `before`, for a writer that did not change but by giving up.
    pub open spec fn leads_to(
        self,
        writer: WriterState,
        reply: LoopReply,
        before: log_runtime::Account,
        next: Stage,
        after: log_runtime::Account,
    ) -> bool {
        match (self, reply) {
            (Stage::Receiving, LoopReply::Received(item)) => Self::after_receiving(
                writer,
                item,
                before,
                next,
                after,
            ),
            (Stage::Writing { record, permit }, LoopReply::Attempted(attempt)) => {
                &&& after == attempted(writer, before, record.code, attempt).released(permit)
                &&& next == (match attempt {
                    PersistAttempt::NotWritten(_) => Stage::Discarding { then: Afterwards::Receive },
                    PersistAttempt::Panicked => Stage::ClosingQueue,
                    _ => Stage::Receiving,
                })
            },
            (Stage::ClosingQueue, LoopReply::QueueClosed) => {
                &&& next == (Stage::Discarding { then: Afterwards::StopAfterPanic })
                &&& after == before
            },
            (Stage::Discarding { then }, LoopReply::Taken(Some(item))) => {
                &&& next == self
                &&& after == log_writer::discarded(before, item)
            },
            (Stage::Discarding { then }, LoopReply::Taken(None)) => {
                &&& next == (if then == Afterwards::Receive {
                    Stage::Receiving
                } else {
                    Stage::Finished
                })
                &&& after == (if then == Afterwards::StopAfterPanic {
                    before.failed(ProjectLogFailureKey::WorkerPanicked)
                } else {
                    before
                })
            },
            (Stage::Dating { remaining, number, event }, LoopReply::Time(now)) => if can_be_recorded(
                writer,
                now,
                number,
            ) {
                &&& next matches Stage::WritingLast { remaining: rest, record }
                &&& rest == remaining
                &&& is_record(writer, now, number, event, record)
                &&& after == before
            } else {
                (next, after) == closing(remaining, unrecorded(writer, before, event.kind()))
            },
            (Stage::WritingLast { remaining, record }, LoopReply::Attempted(attempt)) => {
                let noted = attempted(writer, before, record.code, attempt);
                if attempt is Panicked {
                    &&& next == (Stage::Discarding { then: Afterwards::Finish })
                    &&& after == noted.all_lost(log_writer::codes_of(remaining))
                } else {
                    (next, after) == closing(remaining, noted)
                }
            },
            (Stage::Flushing { then_discard }, LoopReply::Flushed(attempt)) => {
                &&& next == (if then_discard {
                    Stage::Discarding { then: Afterwards::Finish }
                } else {
                    Stage::Finished
                })
                &&& after == flushed(writer, before, attempt)
            },
            _ => false,
        }
    }
}

/// The writer of a run's log and where it stands.
#[derive(Debug)]
pub struct WriterLoop {
    writer: WriterState,
    state: LoopState,
}

fn close_next(sequence: TerminalSequence, account: &mut LogAccount) -> (next: LoopState)
    requires
        old(account).well_formed(),
    ensures
        final(account).well_formed(),
        (next.stage(), final(account)@) == closing(sequence@, old(account)@),
{
    let ghost all = sequence@;
    let mut remaining = sequence;
    match remaining.next_event(account) {
        Some((number, event)) => {
            proof {
                assert((seq![event] + remaining@)[0] == event);
                assert((seq![event] + remaining@).skip(1) =~= remaining@);
            }
            LoopState::Dating { remaining, number, event }
        },
        None => LoopState::Flushing { then_discard: true },
    }
}

/// Whether `request` is what the writer of a log asks for.
pub open spec fn is_request(stage: Stage, request: LoopRequest<'_>) -> bool {
    match stage {
        Stage::Receiving => request is Receive,
        Stage::Writing { record, .. } => request matches LoopRequest::Write { record: r } && *r == record,
        Stage::ClosingQueue => request is CloseQueue,
        Stage::Discarding { .. } => request is TakeWaiting,
        Stage::Dating { .. } => request is ReadClock,
        Stage::WritingLast { record, .. } => request matches LoopRequest::Write { record: r } && *r
            == record,
        Stage::Flushing { .. } => request is Flush,
        Stage::Finished => request is Nothing,
    }
}

impl WriterLoop {
    pub closed spec fn who(&self) -> WriterState {
        self.writer
    }

    pub closed spec fn at(&self) -> Stage {
        self.state.stage()
    }

    pub fn new(writer: WriterState) -> (run: Self)
        ensures
            run.who() == writer,
            run.at() == Stage::Receiving,
    {
        WriterLoop { writer, state: LoopState::Receiving }
    }

    /// What to do now.
    pub fn request(&self) -> (request: LoopRequest<'_>)
        ensures
            is_request(self.at(), request),
    {
        match &self.state {
            LoopState::Receiving => LoopRequest::Receive,
            LoopState::Writing { record, .. } => LoopRequest::Write { record },
            LoopState::ClosingQueue => LoopRequest::CloseQueue,
            LoopState::Discarding { .. } => LoopRequest::TakeWaiting,
            LoopState::Dating { .. } => LoopRequest::ReadClock,
            LoopState::WritingLast { record, .. } => LoopRequest::Write { record },
            LoopState::Flushing { .. } => LoopRequest::Flush,
            LoopState::Finished => LoopRequest::Nothing,
        }
    }

    fn receive(writer: &WriterState, account: &mut LogAccount, item: Option<QueueItem>) -> (next: LoopState)
        requires
            old(account).well_formed(),
            Stage::Receiving.fits(LoopReply::Received(item), old(account)@),
        ensures
            final(account).well_formed(),
            Stage::after_receiving(*writer, item, old(account)@, next.stage(), final(account)@),
    {
        match item {
            Some(QueueItem::Event(queued)) => {
                let QueuedEvent { emitted_at, sequence, event, permit } = queued;
                match writer.begin_persist(account, emitted_at, sequence, event) {
                    PersistStep::Encode(record) => LoopState::Writing { record, permit },
                    PersistStep::Settled(disposition) => {
                        let _ = after_event(account, permit, disposition);
                        LoopState::Receiving
                    },
                }
            },
            Some(QueueItem::Finalize(request)) => {
                let degraded = account.health();
                assert(old(account)@.health.is_shown_by(degraded));
                close_next(TerminalSequence::new(request, degraded), account)
            },
            None => {
                queue_closed(account);
                LoopState::Flushing { then_discard: false }
            },
        }
    }

    /// Goes on with what came of the request.
    pub fn advance(self, account: &mut LogAccount, reply: LoopReply) -> (next: Self)
        requires
            old(account).well_formed(),
            self.at().expects(reply),
            self.at().fits(reply, old(account)@),
        ensures
            final(account).well_formed(),
            next.who().same_log(self.who()),
            next.who().gave_up() == (self.who().gave_up() || (reply matches LoopReply::Attempted(
                attempt,
            ) && attempt is NotWritten)),
            self.at().leads_to(self.who(), reply, old(account)@, next.at(), final(account)@),
    {
        let WriterLoop { mut writer, state } = self;
        let state = match (state, reply) {
            (LoopState::Receiving, LoopReply::Received(item)) => Self::receive(
                &writer,
                account,
                item,
            ),
            (LoopState::Writing { record, permit }, LoopReply::Attempted(attempt)) => {
                let disposition = writer.end_persist(account, record.code, attempt);
                match after_event(account, permit, disposition) {
                    WriterAction::Receive => LoopState::Receiving,
                    WriterAction::DiscardPending => LoopState::Discarding {
                        then: Afterwards::Receive,
                    },
                    WriterAction::Stop => LoopState::ClosingQueue,
                }
            },
            (LoopState::ClosingQueue, _) => LoopState::Discarding {
                then: Afterwards::StopAfterPanic,
            },
            (LoopState::Discarding { then }, LoopReply::Taken(Some(item))) => {
                discard(item, account);
                LoopState::Discarding { then }
            },
            (LoopState::Discarding { then }, LoopReply::Taken(None)) => match then {
                Afterwards::Receive => LoopState::Receiving,
                Afterwards::StopAfterPanic => {
                    stopped_by_panic(account);
                    LoopState::Finished
                },
                Afterwards::Finish => LoopState::Finished,
            },
            (LoopState::Dating { remaining, number, event }, LoopReply::Time(now)) => {
                match writer.begin_persist(account, now, number, event) {
                    PersistStep::Encode(record) => LoopState::WritingLast { remaining, record },
                    PersistStep::Settled(_) => close_next(remaining, account),
                }
            },
            (LoopState::WritingLast { remaining, record }, LoopReply::Attempted(attempt)) => {
                match writer.end_persist(account, record.code, attempt) {
                    PersistDisposition::Panicked => {
                        remaining.abandon(account);
                        LoopState::Discarding { then: Afterwards::Finish }
                    },
                    _ => close_next(remaining, account),
                }
            },
            (LoopState::Flushing { then_discard }, LoopReply::Flushed(attempt)) => {
                let _ = writer.flush_and_sync(account, attempt);
                if then_discard {
                    LoopState::Discarding { then: Afterwards::Finish }
                } else {
                    LoopState::Finished
                }
            },
            _ => unreached(),
        };
        WriterLoop { writer, state }
    }
}

impl Stage {
    /// Nothing is written to the file any more.
    pub open spec fn is_over(self) -> bool {
        match self {
            Stage::ClosingQueue => true,
            Stage::Discarding { then } => then != Afterwards::Receive,
            Stage::Flushing { .. } => true,
            Stage::Finished => true,
            _ => false,
        }
    }

    /// The events that are still to close the run, the one at work included.
    pub open spec fn still_to_close(self) -> Option<Seq<ProjectLogEvent>> {
        match self {
            Stage::Dating { remaining, event, .. } => Some(seq![event] + remaining),
            Stage::WritingLast { remaining, record } => Some(seq![record.payload] + remaining),
            _ => None,
        }
    }
}

/// Once the run is closed, the queue is closed or the writer panicked, no further record is
/// written.
pub proof fn writing_ends_for_good(
    stage: Stage,
    writer: WriterState,
    reply: LoopReply,
    before: log_runtime::Account,
    next: Stage,
    after: log_runtime::Account,
)
    requires
        stage.is_over(),
        stage.expects(reply),
        stage.leads_to(writer, reply, before, next, after),
    ensures
        next.is_over(),
{
}

/// Once the run is being closed, only its closing events are written, in their order and
/// none twice.
pub proof fn closing_events_keep_their_order(
    stage: Stage,
    writer: WriterState,
    reply: LoopReply,
    before: log_runtime::Account,
    next: Stage,
    after: log_runtime::Account,
)
    requires
        stage.still_to_close() is Some,
        stage.expects(reply),
        stage.leads_to(writer, reply, before, next, after),
    ensures
        match next.still_to_close() {
            Some(events) => if stage is Dating && next is WritingLast {
                events == stage.still_to_close()->0
            } else {
                events == stage.still_to_close()->0.skip(1)
            },
            None => next.is_over(),
        },
{
    let events = stage.still_to_close()->0;
    let rest = match stage {
        Stage::Dating { remaining, .. } => remaining,
        Stage::WritingLast { remaining, .. } => remaining,
        _ => events,
    };
    assert(events.skip(1) =~= rest);
    if rest.len() > 0 {
        assert(seq![rest[0]] + rest.skip(1) =~= rest);
    }
}

/// A best-effort event gives back its place in the queue exactly once: when it is settled
/// or thrown away. Nothing else that the writer does changes how many wait.
pub proof fn settled_events_give_back_their_place(
    stage: Stage,
    writer: WriterState,
    reply: LoopReply,
    before: log_runtime::Account,
    next: Stage,
    after: log_runtime::Account,
)
    requires
        stage.expects(reply),
        stage.fits(reply, before),
        stage.leads_to(writer, reply, before, next, after),
    ensures
        ({
            let settled = match (stage, reply) {
                (Stage::Writing { permit, .. }, _) => Some(permit),
                (Stage::Receiving, LoopReply::Received(Some(QueueItem::Event(queued)))) => if next
                    is Receiving {
                    Some(queued.permit)
                } else {
                    None
                },
                (Stage::Discarding { .. }, LoopReply::Taken(Some(QueueItem::Event(queued)))) => Some(
                    queued.permit,
                ),
                _ => None,
            };
            after.waiting == before.waiting - (if settled == Some(PermitKind::BestEffort) {
                1int
            } else {
                0int
            })
        }),
{
    match (stage, reply) {
        (Stage::Receiving, LoopReply::Received(Some(QueueItem::Finalize(request)))) => {
            let degraded = choose|degraded: ProjectLogHealthSnapshot| #[trigger]
                before.health.is_shown_by(degraded) && closing(
                    log_writer::closing_events(request, degraded),
                    before,
                ) == (next, after);
            lemma_unnumbered_waiting(
                before,
                log_writer::codes_of(log_writer::closing_events(request, degraded)),
            );
        },
        (Stage::Discarding { .. }, LoopReply::Taken(Some(QueueItem::Finalize(request)))) => {
            lemma_lost_waiting(before, log_writer::closing_codes(request));
        },
        (Stage::Dating { remaining, event, .. }, _) => {
            lemma_unnumbered_waiting(
                unrecorded(writer, before, event.kind()),
                log_writer::codes_of(remaining),
            );
        },
        (Stage::WritingLast { remaining, record }, LoopReply::Attempted(attempt)) => {
            let noted = attempted(writer, before, record.code, attempt);
            lemma_unnumbered_waiting(noted, log_writer::codes_of(remaining));
            lemma_lost_waiting(noted, log_writer::codes_of(remaining));
        },
        _ => {},
    }
}

proof fn lemma_unnumbered_waiting(account: log_runtime::Account, codes: Seq<ProjectLogCode>)
    ensures
        account.all_unnumbered(codes).waiting == account.waiting,
    decreases codes.len(),
{
    if codes.len() > 0 {
        lemma_unnumbered_waiting(account, codes.drop_last());
    }
}

proof fn lemma_lost_waiting(account: log_runtime::Account, codes: Seq<ProjectLogCode>)
    ensures
        account.all_lost(codes).waiting == account.waiting,
    decreases codes.len(),
{
    if codes.len() > 0 {
        lemma_lost_waiting(account, codes.drop_last());
    }
}

} // verus!
