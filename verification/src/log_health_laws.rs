//! What holds of every health of the project log and of every cursor over it.

use vstd::prelude::*;
use vstd::std_specs::convert::FromSpec;
use crate::diagnostic::{
    IoFailure, ObservabilityComponent, ObservabilityEventCode, ObservabilityFailureCount,
    ObservabilityIssue, ObservabilityRenderTarget, ObservabilityWriteFailure,
};
use crate::log_event::{
    ProjectLogCode, ProjectLogFailureCount, ProjectLogFailureKey, ProjectLogHealthSnapshot,
};
use crate::log_health;
use crate::order;

verus! {

/// Entries in order are distinct.
pub proof fn ordered_entries_are_distinct(entries: Seq<(Seq<int>, ObservabilityFailureCount)>)
    requires
        log_health::in_order(entries),
    ensures
        log_health::distinct(entries),
{
    assert forall|i: int, j: int| 0 <= i < j < entries.len() implies (#[trigger] entries[i]).0 != (
    #[trigger] entries[j]).0 by {
        assert(order::lex_lt(entries[i].0, entries[j].0));
        order::lemma_lex_irreflexive(entries[i].0);
    }
}

/// Ordered lists with the same counts end alike.
proof fn lemma_same_last(
    left: Seq<(Seq<int>, ObservabilityFailureCount)>,
    right: Seq<(Seq<int>, ObservabilityFailureCount)>,
)
    requires
        log_health::in_order(left),
        log_health::in_order(right),
        log_health::counts_of(left) == log_health::counts_of(right),
        left.len() > 0,
    ensures
        right.len() > 0,
        left.last() == right.last(),
{
    log_health::lemma_counts(left);
    log_health::lemma_counts(right);
    let a = left.len() - 1;
    assert(log_health::counts_of(right).dom().contains(left[a].0));
    let i = choose|i: int| 0 <= i < right.len() && (#[trigger] right[i]).0 == left[a].0;
    let b = right.len() - 1;
    assert(log_health::counts_of(left).dom().contains(right[b].0));
    let k = choose|k: int| 0 <= k < left.len() && (#[trigger] left[k]).0 == right[b].0;
    if i < b {
        assert(order::lex_lt(right[i].0, right[b].0));
        if k < a {
            assert(order::lex_lt(left[k].0, left[a].0));
            order::lemma_lex_transitive(left[k].0, left[a].0, right[b].0);
        }
        order::lemma_lex_irreflexive(right[b].0);
    }
}

/// An ordered list is determined by its counts.
proof fn lemma_one_list(
    left: Seq<(Seq<int>, ObservabilityFailureCount)>,
    right: Seq<(Seq<int>, ObservabilityFailureCount)>,
)
    requires
        log_health::in_order(left),
        log_health::in_order(right),
        log_health::counts_of(left) == log_health::counts_of(right),
    ensures
        left == right,
    decreases left.len(),
{
    if left.len() == 0 {
        if right.len() > 0 {
            lemma_same_last(right, left);
        }
        assert(left =~= right);
    } else {
        lemma_same_last(left, right);
        let first = left.drop_last();
        let second = right.drop_last();
        lemma_without_last(left);
        lemma_without_last(right);
        lemma_one_list(first, second);
        assert(left =~= first.push(left.last()));
        assert(right =~= second.push(right.last()));
    }
}

/// Without its last entry an ordered list lacks that count.
proof fn lemma_without_last(entries: Seq<(Seq<int>, ObservabilityFailureCount)>)
    requires
        log_health::in_order(entries),
        entries.len() > 0,
    ensures
        log_health::in_order(entries.drop_last()),
        log_health::counts_of(entries.drop_last()) == log_health::counts_of(entries).remove(
            entries.last().0,
        ),
{
    let rest = entries.drop_last();
    let last = entries.len() - 1;
    assert forall|i: int, j: int| 0 <= i < j < rest.len() implies order::lex_lt(
        (#[trigger] rest[i]).0,
        (#[trigger] rest[j]).0,
    ) by {
        assert(order::lex_lt(entries[i].0, entries[j].0));
    }
    log_health::lemma_counts(rest);
    assert(!log_health::counts_of(rest).dom().contains(entries.last().0)) by {
        if log_health::counts_of(rest).dom().contains(entries.last().0) {
            let i = choose|i: int|
                0 <= i < rest.len() && (#[trigger] rest[i]).0 == entries.last().0;
            assert(order::lex_lt(entries[i].0, entries[last].0));
            order::lemma_lex_irreflexive(entries[last].0);
        }
    }
    assert(log_health::counts_of(rest) =~= log_health::counts_of(entries).remove(entries.last().0));
}

/// Snapshots between which nothing was recorded list the same failures with the same
/// counts in the same order. They are empty exactly when nothing was recorded.
pub proof fn snapshots_of_one_health_are_alike(
    health: log_health::Health,
    left: ProjectLogHealthSnapshot,
    right: ProjectLogHealthSnapshot,
)
    requires
        health.is_shown_by(left),
        health.is_shown_by(right),
    ensures
        left.failures@.len() == right.failures@.len(),
        forall|i: int|
            0 <= i < left.failures@.len() ==> (#[trigger] left.failures@[i]).failure.same_failure(
                right.failures@[i].failure,
            ) && left.failures@[i].count == right.failures@[i].count,
        left.failures@.len() == 0 <==> health.failures == Map::<
            Seq<int>,
            ObservabilityFailureCount,
        >::empty(),
{
    let first = log_health::listed(left.failures@);
    let second = log_health::listed(right.failures@);
    lemma_one_list(first, second);
    assert(first.len() == left.failures@.len() && second.len() == right.failures@.len());
    assert forall|i: int| 0 <= i < left.failures@.len() implies (
    #[trigger] left.failures@[i]).failure.same_failure(right.failures@[i].failure)
        && left.failures@[i].count == right.failures@[i].count by {
        assert(first[i] == second[i]);
        log_health::places_identify_failures(left.failures@[i].failure, right.failures@[i].failure);
    }
    if first.len() > 0 {
        log_health::lemma_counts(first);
        assert(health.failures.dom().contains(first[0].0));
    }
}

/// Whether `picks` are places in a list of length `length`, from front to back.
pub open spec fn ascending_picks(picks: Seq<int>, length: nat) -> bool {
    &&& forall|i: int| 0 <= i < picks.len() ==> 0 <= #[trigger] picks[i] < length
    &&& forall|i: int, j: int| 0 <= i < j < picks.len() ==> #[trigger] picks[i] < #[trigger] picks[j]
}

/// What the entry at `k` of a snapshot adds to the counts seen before.
pub open spec fn addition(
    counts: Map<Seq<int>, ObservabilityFailureCount>,
    failures: Seq<(Seq<int>, ObservabilityFailureCount)>,
    k: int,
) -> Option<ObservabilityFailureCount> {
    failures[k].1.since(log_health::count_at(counts, failures[k].0))
}

/// Whether `picks` are exactly the entries that add something, and `fresh` says what.
pub open spec fn picked(
    counts: Map<Seq<int>, ObservabilityFailureCount>,
    failures: Seq<(Seq<int>, ObservabilityFailureCount)>,
    fresh: Seq<(Seq<int>, ObservabilityFailureCount)>,
    picks: Seq<int>,
) -> bool {
    &&& ascending_picks(picks, failures.len())
    &&& picks.len() == fresh.len()
    &&& forall|i: int|
        0 <= i < picks.len() ==> fresh[i].0 == failures[#[trigger] picks[i]].0 && addition(
            counts,
            failures,
            picks[i],
        ) == Some(fresh[i].1)
    &&& forall|k: int|
        0 <= k < failures.len() && (#[trigger] addition(counts, failures, k)) is Some
            ==> picks.contains(k)
}

/// A cursor presents of each distinct failure what it adds to the count seen before, in
/// the order of the snapshot, and leaves out those that add nothing. Afterwards it has
/// seen the snapshot's counts; failures that the snapshot lacks keep the count last seen.
pub proof fn cursors_present_what_was_added(
    counts: Map<Seq<int>, ObservabilityFailureCount>,
    failures: Seq<(Seq<int>, ObservabilityFailureCount)>,
) -> (picks: Seq<int>)
    requires
        log_health::distinct(failures),
    ensures
        picked(counts, failures, log_health::presented(counts, failures).1, picks),
        forall|k: int|
            0 <= k < failures.len() ==> log_health::count_at(
                log_health::presented(counts, failures).0,
                (#[trigger] failures[k]).0,
            ) == Some(failures[k].1),
        forall|place: Seq<int>|
            (forall|k: int| 0 <= k < failures.len() ==> (#[trigger] failures[k]).0 != place)
                ==> log_health::count_at(log_health::presented(counts, failures).0, place)
                == #[trigger] log_health::count_at(counts, place),
    decreases failures.len(),
{
    let (after, fresh) = log_health::presented(counts, failures);
    if failures.len() == 0 {
        Seq::empty()
    } else {
        let rest = failures.drop_last();
        let last = failures.len() - 1;
        assert(log_health::distinct(rest)) by {
            assert forall|a: int, b: int| 0 <= a < b < rest.len() implies (#[trigger] rest[a]).0 != (
            #[trigger] rest[b]).0 by {
                assert(rest[a] == failures[a] && rest[b] == failures[b]);
            }
        }
        let earlier = cursors_present_what_was_added(counts, rest);
        let (before, shorter) = log_health::presented(counts, rest);
        let place = failures.last().0;
        assert forall|k: int| 0 <= k < rest.len() implies (#[trigger] rest[k]).0 != place by {
            assert(rest[k] == failures[k]);
            assert(failures[k].0 != failures[last].0);
        }
        assert(log_health::count_at(before, place) == log_health::count_at(counts, place));
        assert forall|k: int| 0 <= k < rest.len() implies #[trigger] addition(counts, failures, k)
            == addition(counts, rest, k) by {
            assert(rest[k] == failures[k]);
        }
        let picks = if addition(counts, failures, last) is Some {
            earlier.push(last)
        } else {
            earlier
        };
        assert forall|k: int| 0 <= k < failures.len() implies log_health::count_at(
            after,
            (#[trigger] failures[k]).0,
        ) == Some(failures[k].1) by {
            if k < last {
                assert(rest[k] == failures[k]);
                assert(log_health::count_at(before, rest[k].0) == Some(rest[k].1));
            }
        }
        assert forall|other: Seq<int>|
            (forall|k: int| 0 <= k < failures.len() ==> (#[trigger] failures[k]).0 != other) implies log_health::count_at(
            after,
            other,
        ) == #[trigger] log_health::count_at(counts, other) by {
            assert(failures[last].0 != other);
            assert forall|k: int| 0 <= k < rest.len() implies (#[trigger] rest[k]).0 != other by {
                assert(rest[k] == failures[k]);
                assert(failures[k].0 != other);
            }
        }
        assert forall|i: int| 0 <= i < picks.len() implies fresh[i].0 == failures[
            #[trigger] picks[i]
        ].0 && addition(counts, failures, picks[i]) == Some(fresh[i].1) by {
            if i < earlier.len() {
                let k = earlier[i];
                assert(rest[k] == failures[k]);
                assert(addition(counts, failures, k) == addition(counts, rest, k));
            }
        }
        assert forall|k: int|
            0 <= k < failures.len() && (#[trigger] addition(counts, failures, k)) is Some implies picks.contains(
            k,
        ) by {
            if k < last {
                assert(addition(counts, rest, k) is Some);
                let i = choose|i: int| 0 <= i < earlier.len() && earlier[i] == k;
                assert(picks[i] == k);
            } else {
                assert(picks[earlier.len() as int] == k);
            }
        }
        picks
    }
}

/// A new failure adds its count, and one seen before the difference; equal exact counts
/// add nothing.
pub proof fn additions_are_differences(older: u64, newer: u64)
    ensures
        ({
            let old_count = ObservabilityFailureCount::Exact { count: older };
            let new_count = ObservabilityFailureCount::Exact { count: newer };
            &&& newer > 0 ==> new_count.since(None) == Some(new_count)
            &&& newer > older ==> new_count.since(Some(old_count)) == Some(
                ObservabilityFailureCount::Exact { count: (newer - older) as u64 },
            )
            &&& newer == older ==> new_count.since(Some(old_count)) is None
        }),
{
}

/// What may happen to the health of a log.
pub ghost enum HealthStep {
    Record(ProjectLogFailureKey),
    Notify,
    Install(u64),
    Clear,
    Take,
}

pub open spec fn after_step(health: log_health::Health, step: HealthStep) -> log_health::Health {
    match step {
        HealthStep::Record(key) => health.recorded(key),
        HealthStep::Notify => health.notified(),
        HealthStep::Install(observer) => health.observed_by(observer),
        HealthStep::Clear => health.unobserved(),
        HealthStep::Take => health.told(),
    }
}

pub open spec fn after_steps(
    health: log_health::Health,
    steps: Seq<HealthStep>,
) -> log_health::Health
    decreases steps.len(),
{
    if steps.len() == 0 {
        health
    } else {
        after_step(after_steps(health, steps.drop_last()), steps.last())
    }
}

/// What `observer` is still to be told.
pub open spec fn told_to(notices: Seq<log_health::Told>, observer: u64) -> Seq<log_health::Told> {
    notices.filter(|told: log_health::Told| told.observer == observer)
}

/// An observer that another one has replaced, or that was removed, hears nothing more,
/// whatever happens, unless it is installed again.
pub proof fn replaced_observers_hear_nothing_more(
    health: log_health::Health,
    steps: Seq<HealthStep>,
    observer: u64,
)
    requires
        health.observer != Some(observer),
        !steps.contains(HealthStep::Install(observer)),
    ensures
        after_steps(health, steps).observer != Some(observer),
        told_to(after_steps(health, steps).notices, observer) == told_to(health.notices, observer)
            || told_to(after_steps(health, steps).notices, observer).len() == 0,
    decreases steps.len(),
{
    if steps.len() > 0 {
        let rest = steps.drop_last();
        assert(!rest.contains(HealthStep::Install(observer))) by {
            if rest.contains(HealthStep::Install(observer)) {
                let i = choose|i: int|
                    0 <= i < rest.len() && rest[i] == HealthStep::Install(observer);
                assert(steps[i] == HealthStep::Install(observer));
            }
        }
        replaced_observers_hear_nothing_more(health, rest, observer);
        assert(steps[steps.len() - 1] == steps.last());
        let before = after_steps(health, rest);
        let after = after_steps(health, steps);
        reveal(Seq::filter);
        if after.notices.len() > before.notices.len() {
            assert(after.notices.drop_last() =~= before.notices);
            assert(after.notices.last().observer != observer);
        }
    }
}

/// A new observer is told once and at once what failed so far, also when nothing did; the
/// counts stay.
pub proof fn new_observers_are_told_at_once(health: log_health::Health, observer: u64)
    ensures
        health.observed_by(observer).failures == health.failures,
        health.observed_by(observer).observer == Some(observer),
        health.observed_by(observer).notices == health.notices.push(
            log_health::Told { observer, failures: health.failures },
        ),
{
}

/// A failure is counted under itself and nowhere else: the first time as one, then as one
/// more, until the count is full. The observer hears of it when it is new, and only then.
pub proof fn failures_are_counted_one_by_one(
    health: log_health::Health,
    key: ProjectLogFailureKey,
    other: Seq<int>,
)
    ensures
        ({
            let after = health.recorded(key);
            let place = key.place();
            let known = health.failures.dom().contains(place);
            &&& !known ==> after.failures[place] == (ObservabilityFailureCount::Exact { count: 1 })
            &&& known ==> match health.failures[place] {
                ObservabilityFailureCount::Exact { count } => if count < u64::MAX {
                    after.failures[place] == (ObservabilityFailureCount::Exact {
                        count: (count + 1) as u64,
                    })
                } else {
                    after.failures[place] == (ObservabilityFailureCount::AtLeast { minimum: u64::MAX })
                },
                ObservabilityFailureCount::AtLeast { minimum } => after.failures[place] == (
                ObservabilityFailureCount::AtLeast { minimum }),
            }
            &&& after.failures.dom() == health.failures.dom().insert(place)
            &&& other != place && health.failures.dom().contains(other) ==> after.failures[other]
                == health.failures[other]
            &&& after.observer == health.observer
            &&& known || health.observer is None ==> after.notices == health.notices
            &&& !known && health.observer is Some ==> after.notices == health.notices.push(
                log_health::Told { observer: health.observer->0, failures: after.failures },
            )
        }),
{
    assert(health.recorded(key).failures.dom() =~= health.failures.dom().insert(key.place()));
}

/// A log without its observer counts on in silence, and what was told is not told again.
pub proof fn observers_can_be_removed(health: log_health::Health)
    ensures
        health.unobserved().observer is None,
        health.unobserved().failures == health.failures,
        health.unobserved().notices == health.notices,
        health.told().notices.len() == 0,
        health.told().failures == health.failures,
        health.told().observer == health.observer,
        health.observer is None ==> health.notified() == health,
        health.observer matches Some(observer) ==> health.notified().notices == health.notices.push(
            log_health::Told { observer, failures: health.failures },
        ),
        log_health::Health::initial().failures == Map::<Seq<int>, ObservabilityFailureCount>::empty(),
        log_health::Health::initial().observer is None,
        log_health::Health::initial().notices.len() == 0,
{
}

/// Failures are listed by their kind: dropped events first, then what happened to records and
/// to the file, then to the queue, the writer and the numbers, and lost events last.
pub proof fn failures_are_listed_by_kind(left: ProjectLogFailureKey, right: ProjectLogFailureKey)
    ensures
        left is BestEffortBackpressure && right is Serialize ==> left.place()[0] < right.place()[0],
        left is Serialize && right is Write ==> left.place()[0] < right.place()[0],
        left is Write && right is Flush ==> left.place()[0] < right.place()[0],
        left is Flush && right is Sync ==> left.place()[0] < right.place()[0],
        left is Sync && right is ChannelClosed ==> left.place()[0] < right.place()[0],
        left is ChannelClosed && right is WorkerPanicked ==> left.place()[0] < right.place()[0],
        left is WorkerPanicked && right is SequenceExhausted ==> left.place()[0] < right.place()[0],
        left is SequenceExhausted && right is OccurrenceIdExhausted ==> left.place()[0]
            < right.place()[0],
        left is OccurrenceIdExhausted && right is NotPersisted ==> left.place()[0] < right.place()[0],
        left.place()[0] < right.place()[0] ==> order::lex_lt(left.place(), right.place()),
{
    lemma_not_empty(left);
    lemma_not_empty(right);
}

proof fn lemma_not_empty(key: ProjectLogFailureKey)
    ensures
        key.place().len() > 0,
{
}

/// A counted failure is told as what it is: the event, the file, the count and what the
/// system said of it, each where the failure has it.
pub proof fn counted_failures_are_told_as_what_they_are(entry: ProjectLogFailureCount)
    ensures
        ({
            let component = ObservabilityComponent::ProjectLog;
            let count = entry.count;
            match entry.failure {
                ProjectLogFailureKey::BestEffortBackpressure { code } => entry.issue() == (
                ObservabilityIssue::Backpressure {
                    component,
                    event: <ObservabilityEventCode as FromSpec<ProjectLogCode>>::from_spec(code),
                    count,
                }),
                ProjectLogFailureKey::ChannelClosed { code } => {
                    &&& entry.issue() matches ObservabilityIssue::Channel {
                        component: whose,
                        event,
                        count: often,
                    }
                    &&& whose == component
                    &&& often == count
                    &&& event is None <==> code is None
                    &&& code matches Some(code) ==> event == Some(
                        <ObservabilityEventCode as FromSpec<ProjectLogCode>>::from_spec(code),
                    )
                },
                ProjectLogFailureKey::Serialize { path, code } => entry.issue() == (
                ObservabilityIssue::Serialize {
                    component,
                    path,
                    event: Some(
                        <ObservabilityEventCode as FromSpec<ProjectLogCode>>::from_spec(code),
                    ),
                    count,
                }),
                ProjectLogFailureKey::Write { path, code, io_kind, raw_os_code } => entry.issue() == (
                ObservabilityIssue::Write {
                    component,
                    path,
                    event: Some(
                        <ObservabilityEventCode as FromSpec<ProjectLogCode>>::from_spec(code),
                    ),
                    count,
                    failure: ObservabilityWriteFailure::Io {
                        failure: IoFailure { kind: io_kind, raw_os_code },
                    },
                }),
                ProjectLogFailureKey::Flush { path, io_kind, raw_os_code } => entry.issue() == (
                ObservabilityIssue::Flush {
                    component,
                    path,
                    failure: IoFailure { kind: io_kind, raw_os_code },
                }),
                ProjectLogFailureKey::Sync { path, io_kind, raw_os_code } => entry.issue() == (
                ObservabilityIssue::Sync {
                    component,
                    path,
                    failure: IoFailure { kind: io_kind, raw_os_code },
                }),
                ProjectLogFailureKey::WorkerPanicked => entry.issue() == (
                ObservabilityIssue::Worker { component, count }),
                ProjectLogFailureKey::SequenceExhausted => entry.issue() == (
                ObservabilityIssue::Render {
                    component,
                    target: ObservabilityRenderTarget::Sequence,
                    event: None,
                    count,
                }),
                ProjectLogFailureKey::OccurrenceIdExhausted => entry.issue() == (
                ObservabilityIssue::Render {
                    component,
                    target: ObservabilityRenderTarget::OccurrenceId,
                    event: None,
                    count,
                }),
                ProjectLogFailureKey::NotPersisted { code } => entry.issue() == (
                ObservabilityIssue::Write {
                    component,
                    path: None,
                    event: Some(
                        <ObservabilityEventCode as FromSpec<ProjectLogCode>>::from_spec(code),
                    ),
                    count,
                    failure: ObservabilityWriteFailure::NotPersisted,
                }),
            }
        }),
{
}

/// In a snapshot every failure comes before all later ones, in the order of their places.
pub proof fn snapshots_are_in_order(
    health: log_health::Health,
    snapshot: ProjectLogHealthSnapshot,
    i: int,
    j: int,
)
    requires
        health.is_shown_by(snapshot),
        0 <= i < j < snapshot.failures@.len(),
    ensures
        order::lex_lt(
            snapshot.failures@[i].failure.place(),
            snapshot.failures@[j].failure.place(),
        ),
        snapshot.failures@[i].failure.place()[0] <= snapshot.failures@[j].failure.place()[0],
{
    let entries = log_health::listed(snapshot.failures@);
    assert(order::lex_lt(entries[i].0, entries[j].0));
    lemma_not_empty(snapshot.failures@[i].failure);
    lemma_not_empty(snapshot.failures@[j].failure);
}

/// A snapshot shows every failure that was counted, with its count, and no other.
pub proof fn snapshots_show_every_count(
    health: log_health::Health,
    snapshot: ProjectLogHealthSnapshot,
    place: Seq<int>,
)
    requires
        health.is_shown_by(snapshot),
    ensures
        health.failures.dom().contains(place) <==> exists|i: int|
            0 <= i < snapshot.failures@.len() && (#[trigger] snapshot.failures@[i]).failure.place()
                == place,
        forall|i: int|
            0 <= i < snapshot.failures@.len() ==> health.failures[(
            #[trigger] snapshot.failures@[i]).failure.place()] == snapshot.failures@[i].count,
{
    let entries = log_health::listed(snapshot.failures@);
    log_health::lemma_counts(entries);
    if health.failures.dom().contains(place) {
        let i = choose|i: int| 0 <= i < entries.len() && (#[trigger] entries[i]).0 == place;
        assert(snapshot.failures@[i].failure.place() == place);
    }
    assert forall|i: int| 0 <= i < snapshot.failures@.len() implies health.failures[(
    #[trigger] snapshot.failures@[i]).failure.place()] == snapshot.failures@[i].count
        && health.failures.dom().contains(snapshot.failures@[i].failure.place()) by {
        assert(entries[i].0 == snapshot.failures@[i].failure.place());
    }
}

} // verus!
