//! Waiting for locks of other connections, and giving up the wait.

use vstd::prelude::*;
use crate::sqlite_error::SqliteDriverError;

verus! {

/// How long to wait between two looks at a lock, in milliseconds.
pub const SQLITE_WAIT_POLL_INTERVAL_MS: u64 = 5;

/// After how many virtual machine steps a running statement asks whether to go on.
pub const SQLITE_CANCELLATION_CHECK_OPERATIONS: i32 = 1_000;

/// Whether the waits of a worker are to be given up.
#[derive(Clone, Copy, Debug, PartialEq, Eq, Structural)]
pub struct SqliteWaitCancellation {
    requested: bool,
}

impl SqliteWaitCancellation {
    pub closed spec fn given_up(&self) -> bool {
        self.requested
    }

    pub fn new() -> (cancellation: Self)
        ensures
            !cancellation.given_up(),
    {
        SqliteWaitCancellation { requested: false }
    }

    /// Gives the waits up, for good.
    pub fn request(&mut self)
        ensures
            final(self).given_up(),
    {
        self.requested = true;
    }

    pub fn is_requested(&self) -> (requested: bool)
        ensures
            requested == self.given_up(),
    {
        self.requested
    }
}

/// Whether the waits of the current worker are given up; without a cancellation they never
/// are.
pub fn sqlite_busy_wait_cancelled(cancellation: &Option<SqliteWaitCancellation>) -> (cancelled: bool)
    ensures
        cancelled == (*cancellation matches Some(c) && c.given_up()),
{
    match cancellation {
        Some(cancellation) => cancellation.is_requested(),
        None => false,
    }
}

/// Puts a worker's waits under `cancellation`, in place of an earlier one.
pub fn install_sqlite_busy_cancellation(
    slot: &mut Option<SqliteWaitCancellation>,
    cancellation: SqliteWaitCancellation,
)
    ensures
        *final(slot) == Some(cancellation),
{
    *slot = Some(cancellation);
}

/// What to do about a lock that is held elsewhere.
#[derive(Clone, Copy, Debug, PartialEq, Eq, Structural)]
pub enum LockWait {
    /// Look again after the poll interval, and then ask again.
    Sleep,
    TryAgain,
    GiveUp,
}

/// What follows while another connection has the lock.
pub open spec fn wait_after(cancelled: bool, slept: bool) -> LockWait {
    if cancelled {
        LockWait::GiveUp
    } else if slept {
        LockWait::TryAgain
    } else {
        LockWait::Sleep
    }
}

/// The wait for a lock: one sleep, with a look at the cancellation before and after it.
pub fn wait_for_sqlite_unlock(slept: bool, cancelled: bool) -> (wait: LockWait)
    ensures
        wait == wait_after(cancelled, slept),
{
    if cancelled {
        LockWait::GiveUp
    } else if slept {
        LockWait::TryAgain
    } else {
        LockWait::Sleep
    }
}

/// What a cancellation probe said.
#[derive(Clone, Copy, Debug, PartialEq, Eq, Structural)]
pub enum ProbeReply {
    Answered(bool),
    Panicked,
}

/// Whether the probe is asked at all, with this many suspensions in force.
pub open spec fn asks(suspensions: nat) -> bool {
    suspensions == 0
}

/// Whether the work stops, with this many suspensions in force.
pub open spec fn stops(suspensions: nat, probe: ProbeReply) -> bool {
    asks(suspensions) && probe != ProbeReply::Answered(false)
}

/// The cancellation of one connection. It can be suspended, also several times at once.
#[derive(Debug, PartialEq, Eq, Structural)]
pub struct AttSqliteCancellationContext {
    suspension_depth: usize,
}

impl AttSqliteCancellationContext {
    /// How many suspensions are in force.
    pub closed spec fn suspensions(&self) -> nat {
        self.suspension_depth as nat
    }

    /// There are never more suspensions than can be counted.
    pub proof fn lemma_suspensions_fit(&self)
        ensures
            self.suspensions() <= usize::MAX,
    {
    }

    pub fn new() -> (context: Self)
        ensures
            context.suspensions() == 0,
    {
        AttSqliteCancellationContext { suspension_depth: 0 }
    }

    /// Whether to ask the probe at all.
    pub fn is_probed(&self) -> (probed: bool)
        ensures
            probed == asks(self.suspensions()),
    {
        self.suspension_depth == 0
    }

    /// Whether to stop: a suspended cancellation never stops anything, and a probe that
    /// panics does.
    pub fn is_cancelled(&self, probe: ProbeReply) -> (cancelled: bool)
        ensures
            cancelled == stops(self.suspensions(), probe),
    {
        if self.suspension_depth != 0 {
            return false;
        }
        match probe {
            ProbeReply::Answered(cancelled) => cancelled,
            ProbeReply::Panicked => true,
        }
    }

    pub fn suspend(&mut self)
        requires
            old(self).suspensions() < usize::MAX,
        ensures
            final(self).suspensions() == old(self).suspensions() + 1,
    {
        self.suspension_depth = self.suspension_depth + 1;
    }

    pub fn resume(&mut self)
        requires
            old(self).suspensions() > 0,
        ensures
            final(self).suspensions() == old(self).suspensions() - 1,
    {
        self.suspension_depth = self.suspension_depth - 1;
    }

    /// Whether one more suspension can be counted.
    pub fn can_suspend(&self) -> (possible: bool)
        ensures
            possible == (self.suspensions() < usize::MAX),
    {
        self.suspension_depth < usize::MAX
    }
}

/// Leave to end one suspension.
#[derive(Debug, PartialEq, Eq, Structural)]
pub struct AttSqliteCancellationSuspension {
    ended: bool,
}

/// Suspends a connection's cancellation until the suspension is ended.
pub fn suspend_att_sqlite_cancellation(context: &mut AttSqliteCancellationContext) -> (suspension:
    AttSqliteCancellationSuspension)
    requires
        old(context).suspensions() < usize::MAX,
    ensures
        final(context).suspensions() == old(context).suspensions() + 1,
        suspension.is_in_force(),
{
    context.suspend();
    AttSqliteCancellationSuspension { ended: false }
}

impl AttSqliteCancellationSuspension {
    pub closed spec fn is_in_force(&self) -> bool {
        !self.ended
    }

    /// Ends the suspension; only the first call counts.
    pub fn end(&mut self, context: &mut AttSqliteCancellationContext)
        requires
            old(self).is_in_force() ==> old(context).suspensions() > 0,
        ensures
            !final(self).is_in_force(),
            final(context).suspensions() == after_end(
                old(context).suspensions(),
                old(self).is_in_force(),
            ),
    {
        if !self.ended {
            context.resume();
            self.ended = true;
        }
    }
}

/// How many suspensions are in force after one was ended that was or was not in force.
pub open spec fn after_end(suspensions: nat, in_force: bool) -> nat {
    if in_force {
        (suspensions - 1) as nat
    } else {
        suspensions
    }
}

/// What may happen to the suspensions of one connection; they are numbered as they are
/// made.
pub ghost enum SuspensionStep {
    Make,
    End(int),
}

/// Which of the suspensions are in force after the steps.
pub open spec fn in_force_after(steps: Seq<SuspensionStep>) -> Seq<bool>
    decreases steps.len(),
{
    if steps.len() == 0 {
        Seq::empty()
    } else {
        let before = in_force_after(steps.drop_last());
        match steps.last() {
            SuspensionStep::Make => before.push(true),
            SuspensionStep::End(i) => before.update(i, false),
        }
    }
}

/// How many suspensions a context counts after the steps.
pub open spec fn suspensions_after(steps: Seq<SuspensionStep>) -> nat
    decreases steps.len(),
{
    if steps.len() == 0 {
        0
    } else {
        let before = suspensions_after(steps.drop_last());
        match steps.last() {
            SuspensionStep::Make => before + 1,
            SuspensionStep::End(i) => after_end(before, in_force_after(steps.drop_last())[i]),
        }
    }
}

/// Whether only suspensions are ended that were made before.
pub open spec fn only_made_are_ended(steps: Seq<SuspensionStep>) -> bool
    decreases steps.len(),
{
    steps.len() > 0 ==> {
        &&& only_made_are_ended(steps.drop_last())
        &&& steps.last() matches SuspensionStep::End(i) ==> 0 <= i < in_force_after(
            steps.drop_last(),
        ).len()
    }
}

/// How many of the suspensions are in force.
spec fn count_in_force(suspensions: Seq<bool>) -> nat
    decreases suspensions.len(),
{
    if suspensions.len() == 0 {
        0
    } else {
        count_in_force(suspensions.drop_last()) + if suspensions.last() {
            1nat
        } else {
            0nat
        }
    }
}

proof fn lemma_count_after_end(suspensions: Seq<bool>, i: int)
    requires
        0 <= i < suspensions.len(),
    ensures
        count_in_force(suspensions) == count_in_force(suspensions.update(i, false)) + if suspensions[i] {
            1nat
        } else {
            0nat
        },
    decreases suspensions.len(),
{
    let later = suspensions.update(i, false);
    if i == suspensions.len() - 1 {
        assert(later.drop_last() =~= suspensions.drop_last());
    } else {
        lemma_count_after_end(suspensions.drop_last(), i);
        assert(later.drop_last() =~= suspensions.drop_last().update(i, false));
    }
}

proof fn lemma_none_in_force(suspensions: Seq<bool>)
    ensures
        count_in_force(suspensions) == 0 <==> !suspensions.contains(true),
    decreases suspensions.len(),
{
    if suspensions.len() > 0 {
        let rest = suspensions.drop_last();
        lemma_none_in_force(rest);
        if rest.contains(true) {
            let i = choose|i: int| 0 <= i < rest.len() && rest[i];
            assert(suspensions[i]);
        }
        if suspensions.contains(true) && !suspensions.last() {
            let i = choose|i: int| 0 <= i < suspensions.len() && suspensions[i];
            assert(rest[i]);
        }
        if suspensions.last() {
            assert(suspensions[suspensions.len() - 1]);
        }
    }
}

proof fn lemma_counted(steps: Seq<SuspensionStep>)
    requires
        only_made_are_ended(steps),
    ensures
        suspensions_after(steps) == count_in_force(in_force_after(steps)),
    decreases steps.len(),
{
    if steps.len() > 0 {
        let before = in_force_after(steps.drop_last());
        lemma_counted(steps.drop_last());
        match steps.last() {
            SuspensionStep::Make => {
                assert(before.push(true).drop_last() =~= before);
            },
            SuspensionStep::End(i) => {
                lemma_count_after_end(before, i);
            },
        }
    }
}

/// However many suspensions are made and in whatever order they are ended, also more than
/// once: while one is in force the probe is not asked and nothing stops, whatever it would
/// say; when none is, the probe decides again.
pub proof fn suspensions_nest_in_any_order(steps: Seq<SuspensionStep>, probe: ProbeReply)
    requires
        only_made_are_ended(steps),
    ensures
        in_force_after(steps).contains(true) ==> !asks(suspensions_after(steps)) && !stops(
            suspensions_after(steps),
            probe,
        ),
        !in_force_after(steps).contains(true) ==> {
            &&& asks(suspensions_after(steps))
            &&& probe matches ProbeReply::Answered(cancelled) ==> stops(
                suspensions_after(steps),
                probe,
            ) == cancelled
            &&& probe is Panicked ==> stops(suspensions_after(steps), probe)
        },
{
    lemma_counted(steps);
    lemma_none_in_force(in_force_after(steps));
}

/// What closing a connection ends with: the failure to close it counts most.
pub open spec fn closing(
    progress_handler: Result<(), SqliteDriverError>,
    busy_handler: Result<(), SqliteDriverError>,
    close: Result<(), SqliteDriverError>,
) -> Result<(), SqliteDriverError> {
    if close is Err {
        close
    } else if progress_handler is Err {
        progress_handler
    } else {
        busy_handler
    }
}

/// What closing a connection reports: the failed close, or else the first callback that
/// could not be taken off.
pub fn connection_close_result(
    progress_handler: Result<(), SqliteDriverError>,
    busy_handler: Result<(), SqliteDriverError>,
    close: Result<(), SqliteDriverError>,
) -> (result: Result<(), SqliteDriverError>)
    ensures
        result == closing(progress_handler, busy_handler, close),
{
    if close.is_err() {
        close
    } else if progress_handler.is_err() {
        progress_handler
    } else {
        busy_handler
    }
}

} // verus!
