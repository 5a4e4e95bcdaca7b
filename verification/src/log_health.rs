//! The health of the project log: which failures it had, and how often.

use vstd::prelude::*;
use vstd::std_specs::convert::FromSpec;
use crate::diagnostic::{
    copied_path, Diagnostic, DiagnosticReport, IoFailure, ObservabilityComponent,
    ObservabilityEventCode, ObservabilityFailureCount, ObservabilityIssue,
    ObservabilityRenderTarget, ObservabilityWriteFailure, SafeIoKind, SafePath, StateEffect,
};
use crate::log_event::{
    ProjectLogCode, ProjectLogFailureCount, ProjectLogFailureKey, ProjectLogHealthSnapshot,
};
use crate::order;
use crate::order::{key_order, Comparison};
use crate::text::characters;

verus! {

/// The code points of a text, each greater by one.
pub open spec fn raised(text: Seq<char>) -> Seq<int> {
    text.map_values(|c: char| c as int + 1)
}

/// The characters of a path as positive numbers, closed by zero.
pub open spec fn path_key(path: Option<SafePath>) -> Seq<int> {
    match path {
        None => seq![0],
        Some(path) => seq![1int] + raised(path@) + seq![0int],
    }
}

pub open spec fn code_key(code: Option<i32>) -> Seq<int> {
    match code {
        None => seq![0],
        Some(code) => seq![1, code as int],
    }
}

/// The place of a failure that concerns the file as a whole.
pub open spec fn file_failure_place(
    kind: int,
    path: Option<SafePath>,
    io_kind: SafeIoKind,
    raw_os_code: Option<i32>,
) -> Seq<int> {
    (seq![kind] + path_key(path)).push(io_kind.position()) + code_key(raw_os_code)
}

/// Whether both paths read the same.
pub open spec fn same_path(left: Option<SafePath>, right: Option<SafePath>) -> bool {
    match (left, right) {
        (None, None) => true,
        (Some(left), Some(right)) => left@ == right@,
        _ => false,
    }
}

impl ProjectLogFailureKey {
    /// The key's place in the order of keys: first the kind, then its fields in turn.
    pub open spec fn place(&self) -> Seq<int> {
        match self {
            Self::BestEffortBackpressure { code } => seq![0, code.position()],
            Self::Serialize { path, code } => (seq![1int] + path_key(*path)).push(code.position()),
            Self::Write { path, code, io_kind, raw_os_code } => (seq![2int] + path_key(*path)).push(
                code.position(),
            ).push(io_kind.position()) + code_key(*raw_os_code),
            Self::Flush { path, io_kind, raw_os_code } => file_failure_place(
                3,
                *path,
                *io_kind,
                *raw_os_code,
            ),
            Self::Sync { path, io_kind, raw_os_code } => file_failure_place(
                4,
                *path,
                *io_kind,
                *raw_os_code,
            ),
            Self::ChannelClosed { code } => match code {
                None => seq![5, 0],
                Some(code) => seq![5, 1, code.position()],
            },
            Self::WorkerPanicked => seq![6],
            Self::SequenceExhausted => seq![7],
            Self::OccurrenceIdExhausted => seq![8],
            Self::NotPersisted { code } => seq![9, code.position()],
        }
    }

    /// Whether both are the same failure.
    pub open spec fn same_failure(self, other: Self) -> bool {
        match (self, other) {
            (Self::Serialize { path: p, code: c }, Self::Serialize { path: q, code: d }) => same_path(
                p,
                q,
            ) && c == d,
            (
                Self::Write { path: p, code: c, io_kind: k, raw_os_code: r },
                Self::Write { path: q, code: d, io_kind: l, raw_os_code: s },
            ) => same_path(p, q) && c == d && k == l && r == s,
            (
                Self::Flush { path: p, io_kind: k, raw_os_code: r },
                Self::Flush { path: q, io_kind: l, raw_os_code: s },
            ) => same_path(p, q) && k == l && r == s,
            (
                Self::Sync { path: p, io_kind: k, raw_os_code: r },
                Self::Sync { path: q, io_kind: l, raw_os_code: s },
            ) => same_path(p, q) && k == l && r == s,
            _ => self == other,
        }
    }

    fn sort_key(&self) -> (key: Vec<i64>)
        ensures
            order::integers(key@) == self.place(),
    {
        let mut key: Vec<i64> = Vec::new();
        assert(order::integers(key@) =~= Seq::<int>::empty());
        match self {
            Self::BestEffortBackpressure { code } => {
                put(&mut key, 0);
                put(&mut key, code.index());
            },
            Self::Serialize { path, code } => {
                put(&mut key, 1);
                push_path(&mut key, path);
                put(&mut key, code.index());
            },
            Self::Write { path, code, io_kind, raw_os_code } => {
                put(&mut key, 2);
                push_path(&mut key, path);
                put(&mut key, code.index());
                put(&mut key, io_kind.index());
                push_code(&mut key, *raw_os_code);
            },
            Self::Flush { path, io_kind, raw_os_code } => {
                put(&mut key, 3);
                push_path(&mut key, path);
                put(&mut key, io_kind.index());
                push_code(&mut key, *raw_os_code);
            },
            Self::Sync { path, io_kind, raw_os_code } => {
                put(&mut key, 4);
                push_path(&mut key, path);
                put(&mut key, io_kind.index());
                push_code(&mut key, *raw_os_code);
            },
            Self::ChannelClosed { code } => {
                put(&mut key, 5);
                match code {
                    None => {
                        put(&mut key, 0);
                    },
                    Some(code) => {
                        put(&mut key, 1);
                        put(&mut key, code.index());
                    },
                }
            },
            Self::WorkerPanicked => {
                put(&mut key, 6);
            },
            Self::SequenceExhausted => {
                put(&mut key, 7);
            },
            Self::OccurrenceIdExhausted => {
                put(&mut key, 8);
            },
            Self::NotPersisted { code } => {
                put(&mut key, 9);
                put(&mut key, code.index());
            },
        }
        key
    }

    /// An equal key.
    pub fn copied(&self) -> (copy: Self)
        ensures
            copy == *self,
    {
        match self {
            Self::BestEffortBackpressure { code } => Self::BestEffortBackpressure { code: *code },
            Self::Serialize { path, code } => Self::Serialize { path: copied_path(path), code: *code },
            Self::Write { path, code, io_kind, raw_os_code } => Self::Write {
                path: copied_path(path),
                code: *code,
                io_kind: *io_kind,
                raw_os_code: *raw_os_code,
            },
            Self::Flush { path, io_kind, raw_os_code } => Self::Flush {
                path: copied_path(path),
                io_kind: *io_kind,
                raw_os_code: *raw_os_code,
            },
            Self::Sync { path, io_kind, raw_os_code } => Self::Sync {
                path: copied_path(path),
                io_kind: *io_kind,
                raw_os_code: *raw_os_code,
            },
            Self::ChannelClosed { code } => Self::ChannelClosed { code: *code },
            Self::WorkerPanicked => Self::WorkerPanicked,
            Self::SequenceExhausted => Self::SequenceExhausted,
            Self::OccurrenceIdExhausted => Self::OccurrenceIdExhausted,
            Self::NotPersisted { code } => Self::NotPersisted { code: *code },
        }
    }
}

fn code_point(c: char) -> (code: i64)
    ensures
        code == c as int,
        0 <= code <= 0x10ffff,
{
    c as u32 as i64
}

fn put(key: &mut Vec<i64>, number: i64)
    ensures
        order::integers(final(key)@) == order::integers(old(key)@).push(number as int),
{
    key.push(number);
    assert(order::integers(key@) =~= order::integers(old(key)@).push(number as int));
}

fn push_path(key: &mut Vec<i64>, path: &Option<SafePath>)
    ensures
        order::integers(final(key)@) == order::integers(old(key)@) + path_key(*path),
{
    match path {
        None => {
            put(key, 0);
        },
        Some(path) => {
            put(key, 1);
            let chars = characters(path.as_str());
            let ghost head = order::integers(key@);
            let mut i: usize = 0;
            assert(order::integers(key@) =~= head + raised(chars@.take(0)));
            while i < chars.len()
                invariant
                    i <= chars.len(),
                    order::integers(key@) == head + raised(chars@.take(i as int)),
                decreases chars.len() - i,
            {
                put(key, code_point(chars[i]) + 1);
                assert(chars@.take(i + 1) =~= chars@.take(i as int).push(chars[i as int]));
                assert(raised(chars@.take(i + 1)) =~= raised(chars@.take(i as int)).push(
                    chars[i as int] as int + 1,
                ));
                assert(order::integers(key@) =~= head + raised(chars@.take(i + 1)));
                i += 1;
            }
            put(key, 0);
            assert(chars@.take(chars.len() as int) =~= chars@);
        },
    }
    assert(order::integers(key@) =~= order::integers(old(key)@) + path_key(*path));
}

fn push_code(key: &mut Vec<i64>, code: Option<i32>)
    ensures
        order::integers(final(key)@) == order::integers(old(key)@) + code_key(code),
{
    match code {
        None => {
            put(key, 0);
        },
        Some(code) => {
            put(key, 1);
            put(key, code as i64);
        },
    }
    assert(order::integers(key@) =~= order::integers(old(key)@) + code_key(code));
}

/// Each failure's place with its count.
pub open spec fn listed(failures: Seq<ProjectLogFailureCount>) -> Seq<
    (Seq<int>, ObservabilityFailureCount),
> {
    failures.map_values(|entry: ProjectLogFailureCount| (entry.failure.place(), entry.count))
}

pub open spec fn in_order(entries: Seq<(Seq<int>, ObservabilityFailureCount)>) -> bool {
    forall|i: int, j: int|
        0 <= i < j < entries.len() ==> order::lex_lt((#[trigger] entries[i]).0, (#[trigger] entries[j]).0)
}

/// Whether no two entries have the same place.
pub open spec fn distinct(entries: Seq<(Seq<int>, ObservabilityFailureCount)>) -> bool {
    forall|i: int, j: int|
        0 <= i < j < entries.len() ==> (#[trigger] entries[i]).0 != (#[trigger] entries[j]).0
}

/// The counts by place.
pub open spec fn counts_of(entries: Seq<(Seq<int>, ObservabilityFailureCount)>) -> Map<
    Seq<int>,
    ObservabilityFailureCount,
>
    decreases entries.len(),
{
    if entries.len() == 0 {
        Map::empty()
    } else {
        counts_of(entries.drop_last()).insert(entries.last().0, entries.last().1)
    }
}

/// The count at `place`, if there is one.
pub open spec fn count_at(
    counts: Map<Seq<int>, ObservabilityFailureCount>,
    place: Seq<int>,
) -> Option<ObservabilityFailureCount> {
    if counts.dom().contains(place) {
        Some(counts[place])
    } else {
        None
    }
}

/// Entries in order are the entries of their map.
pub proof fn lemma_counts(entries: Seq<(Seq<int>, ObservabilityFailureCount)>)
    requires
        in_order(entries),
    ensures
        forall|i: int|
            0 <= i < entries.len() ==> counts_of(entries).dom().contains((#[trigger] entries[i]).0)
                && counts_of(entries)[entries[i].0] == entries[i].1,
        forall|place: Seq<int>|
            #[trigger] counts_of(entries).dom().contains(place) ==> exists|i: int|
                0 <= i < entries.len() && (#[trigger] entries[i]).0 == place,
    decreases entries.len(),
{
    if entries.len() > 0 {
        let rest = entries.drop_last();
        let last = entries.len() - 1;
        assert forall|i: int, j: int| 0 <= i < j < rest.len() implies order::lex_lt(
            (#[trigger] rest[i]).0,
            (#[trigger] rest[j]).0,
        ) by {
            assert(rest[i] == entries[i] && rest[j] == entries[j]);
        }
        lemma_counts(rest);
        assert(entries.last() == entries[last]);
        order::lemma_lex_irreflexive(entries[last].0);
        assert forall|i: int| 0 <= i < entries.len() implies counts_of(entries).dom().contains(
            (#[trigger] entries[i]).0,
        ) && counts_of(entries)[entries[i].0] == entries[i].1 by {
            if i < last {
                assert(rest[i] == entries[i]);
                assert(order::lex_lt(entries[i].0, entries[last].0));
            }
        }
        assert forall|place: Seq<int>| #[trigger] counts_of(entries).dom().contains(place) implies exists|
            i: int,
        |
            0 <= i < entries.len() && (#[trigger] entries[i]).0 == place by {
            if place != entries.last().0 {
                assert(counts_of(rest).dom().contains(place));
                let i = choose|i: int| 0 <= i < rest.len() && (#[trigger] rest[i]).0 == place;
                assert(entries[i] == rest[i]);
            } else {
                assert(entries[last].0 == place);
            }
        }
    }
}

/// An entry with a new count is the map with a new count.
proof fn lemma_replaced(
    entries: Seq<(Seq<int>, ObservabilityFailureCount)>,
    i: int,
    count: ObservabilityFailureCount,
)
    requires
        in_order(entries),
        0 <= i < entries.len(),
    ensures
        in_order(entries.update(i, (entries[i].0, count))),
        counts_of(entries.update(i, (entries[i].0, count))) == counts_of(entries).insert(
            entries[i].0,
            count,
        ),
    decreases entries.len(),
{
    let later = entries.update(i, (entries[i].0, count));
    assert forall|a: int, b: int| 0 <= a < b < later.len() implies order::lex_lt(
        (#[trigger] later[a]).0,
        (#[trigger] later[b]).0,
    ) by {
        assert(order::lex_lt(entries[a].0, entries[b].0));
    }
    let rest = entries.drop_last();
    if i == entries.len() - 1 {
        assert(later.drop_last() =~= rest);
        assert(counts_of(later) =~= counts_of(entries).insert(entries[i].0, count));
    } else {
        assert forall|a: int, b: int| 0 <= a < b < rest.len() implies order::lex_lt(
            (#[trigger] rest[a]).0,
            (#[trigger] rest[b]).0,
        ) by {
            assert(order::lex_lt(entries[a].0, entries[b].0));
        }
        lemma_replaced(rest, i, count);
        assert(later.drop_last() =~= rest.update(i, (rest[i].0, count)));
        assert(order::lex_lt(entries[i].0, entries[entries.len() - 1].0));
        order::lemma_lex_irreflexive(entries[i].0);
        assert(counts_of(later) =~= counts_of(entries).insert(entries[i].0, count));
    }
}

/// An entry put in its place adds to the map.
proof fn lemma_inserted(
    entries: Seq<(Seq<int>, ObservabilityFailureCount)>,
    i: int,
    place: Seq<int>,
    count: ObservabilityFailureCount,
)
    requires
        in_order(entries),
        0 <= i <= entries.len(),
        forall|k: int| 0 <= k < i ==> order::lex_lt((#[trigger] entries[k]).0, place),
        forall|k: int| i <= k < entries.len() ==> order::lex_lt(place, (#[trigger] entries[k]).0),
    ensures
        in_order(entries.insert(i, (place, count))),
        counts_of(entries.insert(i, (place, count))) == counts_of(entries).insert(place, count),
    decreases entries.len(),
{
    let later = entries.insert(i, (place, count));
    assert forall|a: int, b: int| 0 <= a < b < later.len() implies order::lex_lt(
        (#[trigger] later[a]).0,
        (#[trigger] later[b]).0,
    ) by {
        let a0 = if a < i { a } else { a - 1 };
        let b0 = if b < i { b } else { b - 1 };
        if a == i {
            assert(later[b] == entries[b0]);
        } else if b == i {
            assert(later[a] == entries[a0]);
        } else {
            assert(later[a] == entries[a0] && later[b] == entries[b0]);
            assert(order::lex_lt(entries[a0].0, entries[b0].0));
        }
    }
    if i == entries.len() {
        assert(later.drop_last() =~= entries);
    } else {
        let rest = entries.drop_last();
        assert forall|a: int, b: int| 0 <= a < b < rest.len() implies order::lex_lt(
            (#[trigger] rest[a]).0,
            (#[trigger] rest[b]).0,
        ) by {
            assert(order::lex_lt(entries[a].0, entries[b].0));
        }
        assert forall|k: int| 0 <= k < i implies order::lex_lt((#[trigger] rest[k]).0, place) by {
            assert(rest[k] == entries[k]);
        }
        assert forall|k: int| i <= k < rest.len() implies order::lex_lt(
            place,
            (#[trigger] rest[k]).0,
        ) by {
            assert(rest[k] == entries[k]);
        }
        lemma_inserted(rest, i, place, count);
        assert(later.drop_last() =~= rest.insert(i, (place, count)));
        assert(later.last() == entries.last());
        assert(order::lex_lt(place, entries[entries.len() - 1].0));
        order::lemma_lex_irreflexive(place);
        assert(counts_of(later) =~= counts_of(entries).insert(place, count));
    }
}

/// Failure counts in the order of their keys.
#[derive(Debug)]
struct FailureCounts {
    entries: Vec<ProjectLogFailureCount>,
}

enum Place {
    Found(usize),
    Missing(usize),
}

impl FailureCounts {
    spec fn well_formed(&self) -> bool {
        in_order(listed(self.entries@))
    }

    spec fn counts(&self) -> Map<Seq<int>, ObservabilityFailureCount> {
        counts_of(listed(self.entries@))
    }

    fn new() -> (counts: Self)
        ensures
            counts.well_formed(),
            counts.counts() == Map::<Seq<int>, ObservabilityFailureCount>::empty(),
            counts.entries@.len() == 0,
    {
        FailureCounts { entries: Vec::new() }
    }

    fn search(&self, key: &ProjectLogFailureKey) -> (place: Place)
        requires
            self.well_formed(),
        ensures
            match place {
                Place::Found(i) => i < self.entries.len() && self.entries[i as int].failure.place()
                    == key.place(),
                Place::Missing(i) => {
                    &&& i <= self.entries.len()
                    &&& forall|k: int|
                        0 <= k < i ==> order::lex_lt(
                            (#[trigger] self.entries[k]).failure.place(),
                            key.place(),
                        )
                    &&& forall|k: int|
                        i <= k < self.entries.len() ==> order::lex_lt(
                            key.place(),
                            (#[trigger] self.entries[k]).failure.place(),
                        )
                },
            },
    {
        let wanted = key.sort_key();
        let mut low: usize = 0;
        let mut high: usize = self.entries.len();
        while low < high
            invariant
                self.well_formed(),
                order::integers(wanted@) == key.place(),
                low <= high <= self.entries.len(),
                forall|k: int|
                    0 <= k < low ==> order::lex_lt(
                        (#[trigger] self.entries[k]).failure.place(),
                        key.place(),
                    ),
                forall|k: int|
                    high <= k < self.entries.len() ==> order::lex_lt(
                        key.place(),
                        (#[trigger] self.entries[k]).failure.place(),
                    ),
            decreases high - low,
        {
            let middle: usize = low + (high - low) / 2;
            let found = self.entries[middle].failure.sort_key();
            let ghost entries = listed(self.entries@);
            match key_order(&found, &wanted) {
                Comparison::Equal => {
                    return Place::Found(middle);
                },
                Comparison::Less => {
                    assert forall|k: int| 0 <= k < middle + 1 implies order::lex_lt(
                        (#[trigger] self.entries[k]).failure.place(),
                        key.place(),
                    ) by {
                        if k < middle {
                            assert(order::lex_lt(entries[k].0, entries[middle as int].0));
                            order::lemma_lex_transitive(
                                entries[k].0,
                                entries[middle as int].0,
                                key.place(),
                            );
                        }
                    }
                    low = middle + 1;
                },
                Comparison::Greater => {
                    assert forall|k: int| middle <= k < self.entries.len() implies order::lex_lt(
                        key.place(),
                        (#[trigger] self.entries[k]).failure.place(),
                    ) by {
                        if middle < k {
                            assert(order::lex_lt(entries[middle as int].0, entries[k].0));
                            order::lemma_lex_transitive(
                                key.place(),
                                entries[middle as int].0,
                                entries[k].0,
                            );
                        }
                    }
                    high = middle;
                },
            }
        }
        Place::Missing(low)
    }

    fn get(&self, key: &ProjectLogFailureKey) -> (count: Option<ObservabilityFailureCount>)
        requires
            self.well_formed(),
        ensures
            count == count_at(self.counts(), key.place()),
    {
        let ghost entries = listed(self.entries@);
        proof {
            lemma_counts(entries);
        }
        match self.search(key) {
            Place::Found(i) => {
                assert(entries[i as int].0 == key.place());
                Some(self.entries[i].count)
            },
            Place::Missing(i) => {
                proof {
                    if self.counts().dom().contains(key.place()) {
                        let k = choose|k: int|
                            0 <= k < entries.len() && (#[trigger] entries[k]).0 == key.place();
                        order::lemma_lex_irreflexive(key.place());
                        assert(self.entries[k].failure.place() == key.place());
                    }
                }
                None
            },
        }
    }

    fn set(&mut self, key: ProjectLogFailureKey, count: ObservabilityFailureCount)
        requires
            old(self).well_formed(),
        ensures
            final(self).well_formed(),
            final(self).counts() == old(self).counts().insert(key.place(), count),
    {
        let ghost earlier = listed(self.entries@);
        let ghost place = key.place();
        match self.search(&key) {
            Place::Found(i) => {
                self.entries[i].count = count;
                proof {
                    assert(earlier[i as int].0 == place);
                    assert(listed(self.entries@) =~= earlier.update(i as int, (place, count)));
                    lemma_replaced(earlier, i as int, count);
                }
            },
            Place::Missing(i) => {
                proof {
                    assert forall|k: int| 0 <= k < i implies order::lex_lt(
                        (#[trigger] earlier[k]).0,
                        place,
                    ) by {
                        assert(earlier[k].0 == self.entries[k].failure.place());
                    }
                    assert forall|k: int| i <= k < earlier.len() implies order::lex_lt(
                        place,
                        (#[trigger] earlier[k]).0,
                    ) by {
                        assert(earlier[k].0 == self.entries[k].failure.place());
                    }
                    lemma_inserted(earlier, i as int, place, count);
                }
                self.entries.insert(i, ProjectLogFailureCount { failure: key, count });
                assert(listed(self.entries@) =~= earlier.insert(i as int, (place, count)));
            },
        }
    }
}

impl ProjectLogFailureCount {
    /// The failure as a problem of the project log.
    pub open spec fn issue(&self) -> ObservabilityIssue {
        let component = ObservabilityComponent::ProjectLog;
        let count = self.count;
        match self.failure {
            ProjectLogFailureKey::BestEffortBackpressure { code } => ObservabilityIssue::Backpressure {
                component,
                event: FromSpec::from_spec(code),
                count,
            },
            ProjectLogFailureKey::ChannelClosed { code: Some(code) } => ObservabilityIssue::Channel {
                component,
                event: Some(FromSpec::from_spec(code)),
                count,
            },
            ProjectLogFailureKey::ChannelClosed { code: None } => ObservabilityIssue::Channel {
                component,
                event: None,
                count,
            },
            ProjectLogFailureKey::Serialize { path, code } => ObservabilityIssue::Serialize {
                component,
                path,
                event: Some(FromSpec::from_spec(code)),
                count,
            },
            ProjectLogFailureKey::Write { path, code, io_kind, raw_os_code } => {
                ObservabilityIssue::Write {
                    component,
                    path,
                    event: Some(FromSpec::from_spec(code)),
                    count,
                    failure: ObservabilityWriteFailure::Io {
                        failure: IoFailure { kind: io_kind, raw_os_code },
                    },
                }
            },
            ProjectLogFailureKey::Flush { path, io_kind, raw_os_code } => ObservabilityIssue::Flush {
                component,
                path,
                failure: IoFailure { kind: io_kind, raw_os_code },
            },
            ProjectLogFailureKey::Sync { path, io_kind, raw_os_code } => ObservabilityIssue::Sync {
                component,
                path,
                failure: IoFailure { kind: io_kind, raw_os_code },
            },
            ProjectLogFailureKey::WorkerPanicked => ObservabilityIssue::Worker { component, count },
            ProjectLogFailureKey::SequenceExhausted => ObservabilityIssue::Render {
                component,
                target: ObservabilityRenderTarget::Sequence,
                event: None,
                count,
            },
            ProjectLogFailureKey::OccurrenceIdExhausted => ObservabilityIssue::Render {
                component,
                target: ObservabilityRenderTarget::OccurrenceId,
                event: None,
                count,
            },
            ProjectLogFailureKey::NotPersisted { code } => ObservabilityIssue::Write {
                component,
                path: None,
                event: Some(FromSpec::from_spec(code)),
                count,
                failure: ObservabilityWriteFailure::NotPersisted,
            },
        }
    }

    /// The failure as a report that can be shown: it changed nothing of the run's outcome.
    pub fn diagnostic_report(&self) -> (report: DiagnosticReport)
        ensures
            report.is_single(StateEffect::Unchanged, Diagnostic::Observability(self.issue())),
    {
        let component = ObservabilityComponent::ProjectLog;
        let count = self.count;
        let issue = match &self.failure {
            ProjectLogFailureKey::BestEffortBackpressure { code } => ObservabilityIssue::Backpressure {
                component,
                event: ObservabilityEventCode::from(*code),
                count,
            },
            ProjectLogFailureKey::ChannelClosed { code } => {
                let event = match code {
                    Some(code) => Some(ObservabilityEventCode::from(*code)),
                    None => None,
                };
                ObservabilityIssue::Channel { component, event, count }
            },
            ProjectLogFailureKey::Serialize { path, code } => ObservabilityIssue::Serialize {
                component,
                path: copied_path(path),
                event: Some(ObservabilityEventCode::from(*code)),
                count,
            },
            ProjectLogFailureKey::Write { path, code, io_kind, raw_os_code } => {
                ObservabilityIssue::Write {
                    component,
                    path: copied_path(path),
                    event: Some(ObservabilityEventCode::from(*code)),
                    count,
                    failure: ObservabilityWriteFailure::Io {
                        failure: IoFailure::from_parts(*io_kind, *raw_os_code),
                    },
                }
            },
            ProjectLogFailureKey::Flush { path, io_kind, raw_os_code } => ObservabilityIssue::Flush {
                component,
                path: copied_path(path),
                failure: IoFailure::from_parts(*io_kind, *raw_os_code),
            },
            ProjectLogFailureKey::Sync { path, io_kind, raw_os_code } => ObservabilityIssue::Sync {
                component,
                path: copied_path(path),
                failure: IoFailure::from_parts(*io_kind, *raw_os_code),
            },
            ProjectLogFailureKey::WorkerPanicked => ObservabilityIssue::Worker { component, count },
            ProjectLogFailureKey::SequenceExhausted => ObservabilityIssue::Render {
                component,
                target: ObservabilityRenderTarget::Sequence,
                event: None,
                count,
            },
            ProjectLogFailureKey::OccurrenceIdExhausted => ObservabilityIssue::Render {
                component,
                target: ObservabilityRenderTarget::OccurrenceId,
                event: None,
                count,
            },
            ProjectLogFailureKey::NotPersisted { code } => ObservabilityIssue::Write {
                component,
                path: None,
                event: Some(ObservabilityEventCode::from(*code)),
                count,
                failure: ObservabilityWriteFailure::NotPersisted,
            },
        };
        DiagnosticReport::new(StateEffect::Unchanged, Diagnostic::Observability(issue))
    }
}

impl ProjectLogHealthSnapshot {
    pub open spec fn counts(&self) -> Map<Seq<int>, ObservabilityFailureCount> {
        counts_of(listed(self.failures@))
    }

    /// Whether nothing failed.
    pub fn is_healthy(&self) -> (healthy: bool)
        ensures
            healthy == (self.failures@.len() == 0),
    {
        self.failures.len() == 0
    }

    /// How often `key` failed, at least; of several entries the first counts.
    pub fn count(&self, key: &ProjectLogFailureKey) -> (count: u64)
        ensures
            match crate::search::first_such(
                |i: int| self.failures[i].failure.place() == key.place(),
                0,
                self.failures.len() as int,
            ) {
                Some(i) => count == self.failures[i].count.bound(),
                None => count == 0,
            },
    {
        let wanted = key.sort_key();
        let ghost holds = |i: int| self.failures[i].failure.place() == key.place();
        let mut i: usize = 0;
        while i < self.failures.len()
            invariant
                i <= self.failures.len(),
                order::integers(wanted@) == key.place(),
                holds == (|i: int| self.failures[i].failure.place() == key.place()),
                forall|k: int| 0 <= k < i ==> !#[trigger] holds(k),
            decreases self.failures.len() - i,
        {
            let found = self.failures[i].failure.sort_key();
            match key_order(&found, &wanted) {
                Comparison::Equal => {
                    proof {
                        assert(holds(i as int));
                        crate::search::lemma_first_found(
                            holds,
                            0,
                            self.failures.len() as int,
                            i as int,
                        );
                    }
                    return self.failures[i].count.minimum();
                },
                _ => {
                    proof {
                        order::lemma_lex_irreflexive(key.place());
                        assert(!holds(i as int));
                    }
                },
            }
            i += 1;
        }
        proof {
            crate::search::lemma_first_absent(holds, 0, self.failures.len() as int);
        }
        0
    }
}

/// Remembers which counts were presented, so that each failure is presented once.
#[derive(Debug)]
pub struct ProjectLogHealthCursor {
    observed: FailureCounts,
}

/// What `failures` add to `counts`, in order, and the counts afterwards.
pub open spec fn presented(
    counts: Map<Seq<int>, ObservabilityFailureCount>,
    failures: Seq<(Seq<int>, ObservabilityFailureCount)>,
) -> (Map<Seq<int>, ObservabilityFailureCount>, Seq<(Seq<int>, ObservabilityFailureCount)>)
    decreases failures.len(),
{
    if failures.len() == 0 {
        (counts, Seq::empty())
    } else {
        let before = presented(counts, failures.drop_last());
        let (place, count) = failures.last();
        (
            before.0.insert(place, count),
            match count.since(count_at(before.0, place)) {
                Some(added) => before.1.push((place, added)),
                None => before.1,
            },
        )
    }
}

impl View for ProjectLogHealthCursor {
    type V = Map<Seq<int>, ObservabilityFailureCount>;

    closed spec fn view(&self) -> Map<Seq<int>, ObservabilityFailureCount> {
        self.observed.counts()
    }
}

impl ProjectLogHealthCursor {
    pub closed spec fn well_formed(&self) -> bool {
        self.observed.well_formed()
    }

    pub fn new() -> (cursor: Self)
        ensures
            cursor.well_formed(),
            cursor@ == Map::<Seq<int>, ObservabilityFailureCount>::empty(),
    {
        ProjectLogHealthCursor { observed: FailureCounts::new() }
    }

    /// What happened since the last call, and remembers the snapshot.
    pub fn consume(&mut self, snapshot: &ProjectLogHealthSnapshot) -> (fresh: Vec<
        ProjectLogFailureCount,
    >)
        requires
            old(self).well_formed(),
        ensures
            final(self).well_formed(),
            (final(self)@, listed(fresh@)) == presented(old(self)@, listed(snapshot.failures@)),
    {
        let mut fresh: Vec<ProjectLogFailureCount> = Vec::new();
        let ghost all = listed(snapshot.failures@);
        let ghost before = self@;
        let mut i: usize = 0;
        assert(listed(fresh@) =~= presented(before, all.take(0)).1);
        while i < snapshot.failures.len()
            invariant
                i <= snapshot.failures.len(),
                all == listed(snapshot.failures@),
                self.well_formed(),
                self@ == presented(before, all.take(i as int)).0,
                listed(fresh@) == presented(before, all.take(i as int)).1,
            decreases snapshot.failures.len() - i,
        {
            let entry = &snapshot.failures[i];
            let ghost place = entry.failure.place();
            proof {
                assert(all.take(i + 1).drop_last() =~= all.take(i as int));
                assert(all.take(i + 1).last() == (place, entry.count));
            }
            let known = self.observed.get(&entry.failure);
            if let Some(count) = entry.count.additional_since(known) {
                let ghost earlier = fresh@;
                fresh.push(ProjectLogFailureCount { failure: entry.failure.copied(), count });
                assert(listed(fresh@) =~= listed(earlier).push((place, count)));
            }
            self.observed.set(entry.failure.copied(), entry.count);
            i += 1;
        }
        assert(all.take(all.len() as int) =~= all);
        fresh
    }
}

/// What the health of the project log amounts to.
pub ghost struct Health {
    /// How often each failure happened, by place.
    pub failures: Map<Seq<int>, ObservabilityFailureCount>,
    /// The observer that is installed, by its number.
    pub observer: Option<u64>,
    /// What observers are still to be told.
    pub notices: Seq<Told>,
}

/// What an observer is told: the counts at one moment.
pub ghost struct Told {
    pub observer: u64,
    pub failures: Map<Seq<int>, ObservabilityFailureCount>,
}

impl Health {
    pub open spec fn initial() -> Self {
        Health { failures: Map::empty(), observer: None, notices: Seq::empty() }
    }

    /// One more failure. The observer is told when the failure is new; repetitions only
    /// count.
    pub open spec fn recorded(self, key: ProjectLogFailureKey) -> Self {
        let failures = self.failures.insert(
            key.place(),
            (match count_at(self.failures, key.place()) {
                Some(count) => count,
                None => ObservabilityFailureCount::Exact { count: 0 },
            }).next(),
        );
        let counted = Health { failures, ..self };
        if self.failures.dom().contains(key.place()) {
            counted
        } else {
            counted.notified()
        }
    }

    /// The observer, if there is one, is to be told what failed so far.
    pub open spec fn notified(self) -> Self {
        match self.observer {
            Some(observer) => Health {
                notices: self.notices.push(Told { observer, failures: self.failures }),
                ..self
            },
            None => self,
        }
    }

    /// With `observer` in place of an earlier one; it is told at once what failed before.
    pub open spec fn observed_by(self, observer: u64) -> Self {
        Health { observer: Some(observer), ..self }.notified()
    }

    /// Without an observer.
    pub open spec fn unobserved(self) -> Self {
        Health { observer: None, ..self }
    }

    /// With everything told.
    pub open spec fn told(self) -> Self {
        Health { notices: Seq::empty(), ..self }
    }

    /// Whether `snapshot` shows the failures, in the order of their keys.
    pub open spec fn is_shown_by(self, snapshot: ProjectLogHealthSnapshot) -> bool {
        in_order(listed(snapshot.failures@)) && snapshot.counts() == self.failures
    }
}

/// What an observer is to be told.
#[derive(Debug, PartialEq, Eq)]
pub struct HealthNotice {
    pub observer: u64,
    pub snapshot: ProjectLogHealthSnapshot,
}

/// What each notice tells, and whom.
pub open spec fn shown(notices: Seq<HealthNotice>) -> Seq<Told> {
    notices.map_values(
        |notice: HealthNotice|
            Told { observer: notice.observer, failures: notice.snapshot.counts() },
    )
}

/// Whether every snapshot is in the order of its keys.
pub open spec fn all_in_order(notices: Seq<HealthNotice>) -> bool {
    forall|i: int|
        0 <= i < notices.len() ==> in_order(listed((#[trigger] notices[i]).snapshot.failures@))
}

/// The failures of the project log, with at most one observer.
#[derive(Debug)]
pub struct ProjectLogHealth {
    counts: FailureCounts,
    observer: Option<u64>,
    notices: Vec<HealthNotice>,
}

impl View for ProjectLogHealth {
    type V = Health;

    closed spec fn view(&self) -> Health {
        Health {
            failures: self.counts.counts(),
            observer: self.observer,
            notices: shown(self.notices@),
        }
    }
}

impl ProjectLogHealth {
    pub closed spec fn well_formed(&self) -> bool {
        self.counts.well_formed() && all_in_order(self.notices@)
    }

    pub fn new() -> (health: Self)
        ensures
            health.well_formed(),
            health@ == Health::initial(),
    {
        let health = ProjectLogHealth {
            counts: FailureCounts::new(),
            observer: None,
            notices: Vec::new(),
        };
        assert(health@.notices =~= Health::initial().notices);
        health
    }

    /// A health that goes on from an earlier count of one failure.
    pub fn resumed(key: ProjectLogFailureKey, count: ObservabilityFailureCount) -> (health: Self)
        ensures
            health.well_formed(),
            health@ == (Health {
                failures: Health::initial().failures.insert(key.place(), count),
                ..Health::initial()
            }),
    {
        let mut counts = FailureCounts::new();
        counts.set(key, count);
        let health = ProjectLogHealth { counts, observer: None, notices: Vec::new() };
        assert(health@.notices =~= Health::initial().notices);
        health
    }

    /// Counts one more failure.
    pub fn record(&mut self, key: ProjectLogFailureKey)
        requires
            old(self).well_formed(),
        ensures
            final(self).well_formed(),
            final(self)@ == old(self)@.recorded(key),
    {
        let known = self.counts.get(&key);
        let count = match known {
            Some(count) => count,
            None => ObservabilityFailureCount::exact(0),
        };
        let ghost place = key.place();
        self.counts.set(key, count.increment());
        if known.is_none() {
            self.notify_observer();
        }
    }

    /// All failures so far.
    pub fn snapshot(&self) -> (snapshot: ProjectLogHealthSnapshot)
        requires
            self.well_formed(),
        ensures
            self@.is_shown_by(snapshot),
    {
        let mut failures: Vec<ProjectLogFailureCount> = Vec::new();
        let mut i: usize = 0;
        let ghost all = self.counts.entries@;
        while i < self.counts.entries.len()
            invariant
                self.well_formed(),
                all == self.counts.entries@,
                i <= self.counts.entries.len(),
                failures@ == all.take(i as int),
            decreases self.counts.entries.len() - i,
        {
            let entry = &self.counts.entries[i];
            failures.push(
                ProjectLogFailureCount { failure: entry.failure.copied(), count: entry.count },
            );
            assert(all.take(i + 1) =~= all.take(i as int).push(all[i as int]));
            i += 1;
        }
        assert(all.take(all.len() as int) =~= all);
        ProjectLogHealthSnapshot { failures }
    }

    /// Installs an observer, which is told at once what failed before; `observer` is the
    /// number by which its notices are known.
    pub fn install_observer(&mut self, observer: u64)
        requires
            old(self).well_formed(),
        ensures
            final(self).well_formed(),
            final(self)@ == old(self)@.observed_by(observer),
    {
        self.observer = Some(observer);
        self.notify_observer();
    }

    /// Removes the observer; the counts stay.
    pub fn clear_observer(&mut self)
        requires
            old(self).well_formed(),
        ensures
            final(self).well_formed(),
            final(self)@ == old(self)@.unobserved(),
    {
        self.observer = None;
    }

    /// Tells the observer, if there is one, what failed so far.
    pub fn notify_observer(&mut self)
        requires
            old(self).well_formed(),
        ensures
            final(self).well_formed(),
            final(self)@ == old(self)@.notified(),
    {
        if let Some(observer) = self.observer {
            let snapshot = self.snapshot();
            self.notices.push(HealthNotice { observer, snapshot });
            assert(self@.notices =~= old(self)@.notified().notices);
        }
    }

    /// Hands out what observers are still to be told, oldest first.
    pub fn take_notices(&mut self) -> (notices: Vec<HealthNotice>)
        requires
            old(self).well_formed(),
        ensures
            final(self).well_formed(),
            final(self)@ == old(self)@.told(),
            shown(notices@) == old(self)@.notices,
            all_in_order(notices@),
    {
        let mut notices: Vec<HealthNotice> = Vec::new();
        std::mem::swap(&mut notices, &mut self.notices);
        assert(shown(self.notices@) =~= Seq::<Told>::empty());
        notices
    }
}

/// Two failures share a place in the order only if they are the same failure.
pub proof fn places_identify_failures(left: ProjectLogFailureKey, right: ProjectLogFailureKey)
    requires
        left.place() == right.place(),
    ensures
        left.same_failure(right),
{
    lemma_place_names_kind(left);
    lemma_place_names_kind(right);
    match left {
        ProjectLogFailureKey::Serialize { path, code } => {
            if let ProjectLogFailureKey::Serialize { path: other, code: second } = right {
                lemma_same_serialize(path, code, other, second);
            }
        },
        ProjectLogFailureKey::Write { path, code, io_kind, raw_os_code } => {
            if let ProjectLogFailureKey::Write {
                path: other,
                code: second,
                io_kind: kind,
                raw_os_code: raw,
            } = right {
                lemma_same_write(path, code, io_kind, raw_os_code, other, second, kind, raw);
            }
        },
        ProjectLogFailureKey::Flush { path, io_kind, raw_os_code } => {
            if let ProjectLogFailureKey::Flush { path: other, io_kind: kind, raw_os_code: raw } = right {
                lemma_same_file_failure(3, path, io_kind, raw_os_code, other, kind, raw);
            }
        },
        ProjectLogFailureKey::Sync { path, io_kind, raw_os_code } => {
            if let ProjectLogFailureKey::Sync { path: other, io_kind: kind, raw_os_code: raw } = right {
                lemma_same_file_failure(4, path, io_kind, raw_os_code, other, kind, raw);
            }
        },
        _ => {
            lemma_same_without_path(left, right);
        },
    }
}

proof fn lemma_same_without_path(left: ProjectLogFailureKey, right: ProjectLogFailureKey)
    requires
        left.place() == right.place(),
        kind_of(left) == kind_of(right),
        !(1 <= kind_of(left) <= 4),
    ensures
        left == right,
{
    match (left, right) {
        (
            ProjectLogFailureKey::ChannelClosed { code: c },
            ProjectLogFailureKey::ChannelClosed { code: d },
        ) => {
            assert(left.place()[1] == right.place()[1]);
            if c.is_some() && d.is_some() {
                assert(left.place()[2] == right.place()[2]);
                lemma_position_of_code(c.unwrap(), d.unwrap());
            }
        },
        (
            ProjectLogFailureKey::BestEffortBackpressure { code: c },
            ProjectLogFailureKey::BestEffortBackpressure { code: d },
        ) => {
            assert(left.place()[1] == right.place()[1]);
            lemma_position_of_code(c, d);
        },
        (
            ProjectLogFailureKey::NotPersisted { code: c },
            ProjectLogFailureKey::NotPersisted { code: d },
        ) => {
            assert(left.place()[1] == right.place()[1]);
            lemma_position_of_code(c, d);
        },
        _ => {},
    }
}

proof fn lemma_same_serialize(
    p: Option<SafePath>,
    c: ProjectLogCode,
    q: Option<SafePath>,
    d: ProjectLogCode,
)
    requires
        (seq![1int] + path_key(p)).push(c.position()) == (seq![1int] + path_key(q)).push(d.position()),
    ensures
        same_path(p, q),
        c == d,
{
    let first = seq![c.position()];
    let second = seq![d.position()];
    assert((seq![1int] + path_key(p)).push(c.position()) =~= seq![1int] + (path_key(p) + first));
    assert((seq![1int] + path_key(q)).push(d.position()) =~= seq![1int] + (path_key(q) + second));
    lemma_after_kind(1, path_key(p) + first, path_key(q) + second);
    lemma_path_ends(p, first, q, second);
    assert(first[0] == second[0]);
    lemma_position_of_code(c, d);
}

proof fn lemma_regrouped(kind: int, path: Seq<int>, a: int, b: int, rest: Seq<int>)
    ensures
        (seq![kind] + path).push(a).push(b) + rest == seq![kind] + (path + (seq![a, b] + rest)),
{
    assert((seq![kind] + path).push(a).push(b) + rest =~= seq![kind] + (path + (seq![a, b] + rest)));
}

proof fn lemma_same_write(
    p: Option<SafePath>,
    c: ProjectLogCode,
    k: SafeIoKind,
    r: Option<i32>,
    q: Option<SafePath>,
    d: ProjectLogCode,
    l: SafeIoKind,
    s: Option<i32>,
)
    requires
        (seq![2int] + path_key(p)).push(c.position()).push(k.position()) + code_key(r) == (seq![2int]
            + path_key(q)).push(d.position()).push(l.position()) + code_key(s),
    ensures
        same_path(p, q),
        c == d,
        k == l,
        r == s,
{
    let first = seq![c.position(), k.position()] + code_key(r);
    let second = seq![d.position(), l.position()] + code_key(s);
    lemma_regrouped(2, path_key(p), c.position(), k.position(), code_key(r));
    lemma_regrouped(2, path_key(q), d.position(), l.position(), code_key(s));
    lemma_after_kind(2, path_key(p) + first, path_key(q) + second);
    lemma_path_ends(p, first, q, second);
    assert(first[0] == second[0] && first[1] == second[1]);
    lemma_position_of_code(c, d);
    lemma_position_of_kind(k, l);
    assert(first.skip(2) =~= code_key(r));
    assert(second.skip(2) =~= code_key(s));
    lemma_code_key(r, s);
}

proof fn lemma_code_is_natural(c: char)
    ensures
        0 <= c as int,
{
}

proof fn lemma_position_of_code(left: ProjectLogCode, right: ProjectLogCode)
    requires
        left.position() == right.position(),
    ensures
        left == right,
{
}

proof fn lemma_position_of_kind(left: SafeIoKind, right: SafeIoKind)
    requires
        left.position() == right.position(),
    ensures
        left == right,
{
}

/// The first number of a place.
spec fn kind_of(key: ProjectLogFailureKey) -> int {
    match key {
        ProjectLogFailureKey::BestEffortBackpressure { .. } => 0,
        ProjectLogFailureKey::Serialize { .. } => 1,
        ProjectLogFailureKey::Write { .. } => 2,
        ProjectLogFailureKey::Flush { .. } => 3,
        ProjectLogFailureKey::Sync { .. } => 4,
        ProjectLogFailureKey::ChannelClosed { .. } => 5,
        ProjectLogFailureKey::WorkerPanicked => 6,
        ProjectLogFailureKey::SequenceExhausted => 7,
        ProjectLogFailureKey::OccurrenceIdExhausted => 8,
        ProjectLogFailureKey::NotPersisted { .. } => 9,
    }
}

proof fn lemma_place_names_kind(key: ProjectLogFailureKey)
    ensures
        key.place().len() > 0,
        key.place()[0] == kind_of(key),
{
}

proof fn lemma_after_kind(kind: int, left: Seq<int>, right: Seq<int>)
    ensures
        seq![kind] + left == seq![kind] + right ==> left == right,
{
    if seq![kind] + left == seq![kind] + right {
        assert((seq![kind] + left).skip(1) =~= left);
        assert((seq![kind] + right).skip(1) =~= right);
    }
}

proof fn lemma_code_key(left: Option<i32>, right: Option<i32>)
    requires
        code_key(left) == code_key(right),
    ensures
        left == right,
{
    assert(code_key(left)[0] == code_key(right)[0]);
    if left.is_some() {
        assert(code_key(left)[1] == code_key(right)[1]);
    }
}

/// A path's numbers end where they say: nothing that follows can be taken for them.
proof fn lemma_path_ends(p: Option<SafePath>, after: Seq<int>, q: Option<SafePath>, rest: Seq<int>)
    requires
        path_key(p) + after == path_key(q) + rest,
    ensures
        same_path(p, q),
        after == rest,
{
    let left = path_key(p) + after;
    let right = path_key(q) + rest;
    assert(left[0] == right[0]);
    if p.is_some() {
        let a = p.unwrap()@;
        let b = q.unwrap()@;
        assert forall|i: int| 0 <= i < a.len() implies #[trigger] left[i + 1] == a[i] as int + 1 by {
            assert(raised(a)[i] == a[i] as int + 1);
        }
        assert forall|i: int| 0 <= i < b.len() implies #[trigger] right[i + 1] == b[i] as int + 1 by {
            assert(raised(b)[i] == b[i] as int + 1);
        }
        assert(left[a.len() as int + 1] == 0);
        assert(right[b.len() as int + 1] == 0);
        if a.len() < b.len() {
            lemma_code_is_natural(b[a.len() as int]);
            assert(right[a.len() as int + 1] == b[a.len() as int] as int + 1);
        }
        if b.len() < a.len() {
            lemma_code_is_natural(a[b.len() as int]);
            assert(left[b.len() as int + 1] == a[b.len() as int] as int + 1);
        }
        assert forall|i: int| 0 <= i < a.len() implies a[i] == b[i] by {
            assert(left[i + 1] == right[i + 1]);
        }
        assert(a =~= b);
    }
    assert(left.skip(path_key(p).len() as int) =~= after);
    assert(right.skip(path_key(q).len() as int) =~= rest);
}

proof fn lemma_same_file_failure(
    kind: int,
    p: Option<SafePath>,
    k: SafeIoKind,
    r: Option<i32>,
    q: Option<SafePath>,
    l: SafeIoKind,
    s: Option<i32>,
)
    requires
        file_failure_place(kind, p, k, r) == file_failure_place(kind, q, l, s),
    ensures
        same_path(p, q),
        k == l,
        r == s,
{
    let first = seq![k.position()] + code_key(r);
    let second = seq![l.position()] + code_key(s);
    assert(file_failure_place(kind, p, k, r) =~= seq![kind] + (path_key(p) + first));
    assert(file_failure_place(kind, q, l, s) =~= seq![kind] + (path_key(q) + second));
    lemma_after_kind(kind, path_key(p) + first, path_key(q) + second);
    lemma_path_ends(p, first, q, second);
    assert(first[0] == second[0]);
    lemma_position_of_kind(k, l);
    assert(first.skip(1) =~= code_key(r));
    assert(second.skip(1) =~= code_key(s));
    lemma_code_key(r, s);
}

/// A snapshot presented twice brings nothing the second time.
pub proof fn repeated_snapshot_adds_nothing(
    counts: Map<Seq<int>, ObservabilityFailureCount>,
    failures: Seq<(Seq<int>, ObservabilityFailureCount)>,
)
    requires
        distinct(failures),
    ensures
        presented(presented(counts, failures).0, failures) == (
            presented(counts, failures).0,
            Seq::<(Seq<int>, ObservabilityFailureCount)>::empty(),
        ),
{
    lemma_presented(counts, failures);
    let after = presented(counts, failures).0;
    assert forall|i: int| 0 <= i < failures.len() implies after.dom().contains(
        (#[trigger] failures[i]).0,
    ) && after[failures[i].0] == failures[i].1 by {}
    lemma_nothing_new(after, failures);
}

/// Presenting distinct entries leaves each entry's count at its place.
proof fn lemma_presented(
    counts: Map<Seq<int>, ObservabilityFailureCount>,
    failures: Seq<(Seq<int>, ObservabilityFailureCount)>,
)
    requires
        distinct(failures),
    ensures
        forall|i: int|
            0 <= i < failures.len() ==> presented(counts, failures).0.dom().contains(
                (#[trigger] failures[i]).0,
            ) && presented(counts, failures).0[failures[i].0] == failures[i].1,
    decreases failures.len(),
{
    if failures.len() > 0 {
        let rest = failures.drop_last();
        let last = failures.len() - 1;
        assert(distinct(rest)) by {
            assert forall|a: int, b: int| 0 <= a < b < rest.len() implies (#[trigger] rest[a]).0 != (
            #[trigger] rest[b]).0 by {
                assert(rest[a] == failures[a] && rest[b] == failures[b]);
            }
        }
        lemma_presented(counts, rest);
        assert forall|i: int| 0 <= i < failures.len() implies presented(
            counts,
            failures,
        ).0.dom().contains((#[trigger] failures[i]).0) && presented(counts, failures).0[failures[i].0]
            == failures[i].1 by {
            if i < last {
                assert(rest[i] == failures[i]);
                assert(failures[i].0 != failures[last].0);
            }
        }
    }
}

proof fn lemma_nothing_new(
    counts: Map<Seq<int>, ObservabilityFailureCount>,
    failures: Seq<(Seq<int>, ObservabilityFailureCount)>,
)
    requires
        forall|i: int|
            0 <= i < failures.len() ==> counts.dom().contains((#[trigger] failures[i]).0)
                && counts[failures[i].0] == failures[i].1,
    ensures
        presented(counts, failures).0 == counts,
        presented(counts, failures).1.len() == 0,
    decreases failures.len(),
{
    if failures.len() > 0 {
        let rest = failures.drop_last();
        assert forall|i: int| 0 <= i < rest.len() implies counts.dom().contains(
            (#[trigger] rest[i]).0,
        ) && counts[rest[i].0] == rest[i].1 by {
            assert(rest[i] == failures[i]);
        }
        lemma_nothing_new(counts, rest);
        assert(failures[failures.len() - 1] == failures.last());
        assert(counts.insert(failures.last().0, failures.last().1) =~= counts);
    }
}

} // verus!
