//! What holds of every diagnostic: of its severity, its words and its counts.

use vstd::prelude::*;
use crate::diagnostic;
use crate::diagnostic::{IoError, ObservabilityFailureCount, SafeIoKind, StateEffect};

verus! {

/// Of two effects the worse one counts. Nothing is worse than an unknown outcome, then come
/// a needed recovery, a failed finalization and kept progress.
pub proof fn the_worse_effect_counts(left: StateEffect, right: StateEffect)
    ensures
        ({
            let worse = left.worse(right);
            &&& worse == left || worse == right
            &&& worse is OutcomeUnknown <==> left is OutcomeUnknown || right is OutcomeUnknown
            &&& worse is OutcomeUnknown || worse is RecoveryRequired <==> left is OutcomeUnknown || left
                is RecoveryRequired || right is OutcomeUnknown || right is RecoveryRequired
            &&& worse is Unchanged || worse is ProgressPreserved <==> (left is Unchanged || left
                is ProgressPreserved) && (right is Unchanged || right is ProgressPreserved)
            &&& worse is Unchanged <==> left is Unchanged && right is Unchanged
            &&& worse == right.worse(left)
        }),
{
}

/// Whether a character has no picture: those of the two control blocks, and delete.
pub open spec fn has_no_picture(c: char) -> bool {
    let code = c as u32;
    code <= 0x1f || code >= 0x7f && code <= 0x9f
}

/// Whether every character can be printed.
pub open spec fn is_printable(text: Seq<char>) -> bool {
    forall|i: int| 0 <= i < text.len() ==> !has_no_picture(#[trigger] text[i])
}

/// Whether no character can be printed.
pub open spec fn is_unprintable(text: Seq<char>) -> bool {
    forall|i: int| 0 <= i < text.len() ==> has_no_picture(#[trigger] text[i])
}

/// A text that can be printed stays as it is.
pub proof fn printable_text_stays_as_it_is(text: Seq<char>)
    requires
        is_printable(text),
    ensures
        diagnostic::single_line(text) == text,
    decreases text.len(),
{
    if text.len() > 0 {
        let before = text.drop_last();
        assert forall|i: int| 0 <= i < before.len() implies !has_no_picture(#[trigger] before[i]) by {
            assert(before[i] == text[i]);
        }
        printable_text_stays_as_it_is(before);
        assert(!has_no_picture(text[text.len() - 1]));
        assert(before.push(text.last()) =~= text);
    }
}

/// Each run of characters without a picture becomes one space, and what is around it stays.
pub proof fn runs_become_one_space(before: Seq<char>, run: Seq<char>, after: Seq<char>)
    requires
        before.len() > 0 ==> !has_no_picture(before[before.len() - 1]),
        run.len() > 0,
        is_unprintable(run),
        is_printable(after),
    ensures
        diagnostic::single_line(before + run + after) == diagnostic::single_line(before).push(' ')
            + after,
    decreases run.len() + after.len(),
{
    let whole = before + run + after;
    if after.len() > 0 {
        let shorter = after.drop_last();
        assert forall|i: int| 0 <= i < shorter.len() implies !has_no_picture(#[trigger] shorter[i]) by {
            assert(shorter[i] == after[i]);
        }
        runs_become_one_space(before, run, shorter);
        assert(whole.drop_last() =~= before + run + shorter);
        assert(whole.last() == after[after.len() - 1]);
        assert(!has_no_picture(after[after.len() - 1]));
        assert((diagnostic::single_line(before).push(' ') + shorter).push(after.last())
            =~= diagnostic::single_line(before).push(' ') + after);
    } else {
        assert(whole =~= before + run);
        assert(whole.last() == run[run.len() - 1]);
        assert(has_no_picture(run[run.len() - 1]));
        if run.len() == 1 {
            assert(whole.drop_last() =~= before);
            if whole.len() > 1 {
                assert(whole[whole.len() - 2] == before[before.len() - 1]);
            }
        } else {
            let shorter = run.drop_last();
            assert forall|i: int| 0 <= i < shorter.len() implies has_no_picture(#[trigger] shorter[i]) by {
                assert(shorter[i] == run[i]);
            }
            runs_become_one_space(before, shorter, after);
            assert(before + shorter + after =~= before + shorter);
            assert(whole.drop_last() =~= before + shorter);
            assert(whole[whole.len() - 2] == run[run.len() - 2]);
            assert(has_no_picture(run[run.len() - 2]));
        }
        assert(diagnostic::single_line(before).push(' ') + after =~= diagnostic::single_line(
            before,
        ).push(' '));
    }
}

/// Paths are shown without the prefix of verbatim paths: a share keeps its two backslashes,
/// and every other path stays as it is.
pub proof fn paths_are_shown_as_written(rest: Seq<char>, path: Seq<char>)
    ensures
        diagnostic::public_form(seq!['\\', '\\', '?', '\\', 'U', 'N', 'C', '\\'] + rest) == seq![
            '\\',
            '\\',
        ] + rest,
        !(rest.len() >= 4 && rest[0] == 'U' && rest[1] == 'N' && rest[2] == 'C' && rest[3] == '\\')
            ==> diagnostic::public_form(seq!['\\', '\\', '?', '\\'] + rest) == rest,
        !(path.len() >= 4 && path[0] == '\\' && path[1] == '\\' && path[2] == '?' && path[3] == '\\')
            ==> diagnostic::public_form(path) == path,
        diagnostic::safe_path(path) == diagnostic::single_line(diagnostic::public_form(path)),
{
    let share = seq!['\\', '\\', '?', '\\', 'U', 'N', 'C', '\\'] + rest;
    assert(share.take(8) =~= seq!['\\', '\\', '?', '\\', 'U', 'N', 'C', '\\']);
    assert(share.skip(8) =~= rest);
    let verbatim = seq!['\\', '\\', '?', '\\'] + rest;
    assert(verbatim.take(4) =~= seq!['\\', '\\', '?', '\\']);
    assert(verbatim.skip(4) =~= rest);
    if diagnostic::begins_with(verbatim, diagnostic::verbatim_share_prefix()) {
        let prefix = verbatim.take(8);
        assert(prefix[4] == rest[0] && prefix[5] == rest[1] && prefix[6] == rest[2] && prefix[7]
            == rest[3]);
        assert(prefix[4] == 'U' && prefix[5] == 'N' && prefix[6] == 'C' && prefix[7] == '\\');
    }
    if diagnostic::begins_with(path, diagnostic::verbatim_prefix()) {
        let prefix = path.take(4);
        assert(prefix[0] == path[0] && prefix[1] == path[1] && prefix[2] == path[2] && prefix[3]
            == path[3]);
        assert(prefix[0] == '\\' && prefix[1] == '\\' && prefix[2] == '?' && prefix[3] == '\\');
    }
    if diagnostic::begins_with(path, diagnostic::verbatim_share_prefix()) {
        let prefix = path.take(8);
        assert(prefix[0] == path[0] && prefix[1] == path[1] && prefix[2] == path[2] && prefix[3]
            == path[3]);
        assert(prefix[0] == '\\' && prefix[1] == '\\' && prefix[2] == '?' && prefix[3] == '\\');
    }
}

/// A name is kept as it is unless it is empty, and a failed operation keeps its kind and its
/// code.
pub proof fn names_and_failures_are_kept(text: Seq<char>, error: IoError)
    ensures
        text.len() == 0 <==> diagnostic::identifier_in(text) is None,
        text.len() > 0 ==> diagnostic::identifier_in(text) == Some(text),
        error.failure().kind == error.kind,
        error.failure().raw_os_code == error.raw_os_code,
{
}

/// A count grows by one until it is full, and from then on says only how many there were at
/// least.
pub proof fn counts_grow_until_full(count: u64)
    ensures
        ({
            let exact = ObservabilityFailureCount::Exact { count };
            let least = ObservabilityFailureCount::AtLeast { minimum: count };
            &&& count < u64::MAX ==> (exact.next() matches ObservabilityFailureCount::Exact {
                count: next,
            } && next == count + 1)
            &&& count == u64::MAX ==> exact.next() == least
            &&& least.next() == least
            &&& exact.bound() == count
            &&& least.bound() == count
        }),
{
}

/// What was added between two counts: together with the earlier one it makes the later one,
/// it is exact exactly when the later one is, and nothing is told where nothing was added.
pub proof fn additions_make_up_the_difference(
    now: ObservabilityFailureCount,
    before: ObservabilityFailureCount,
)
    ensures
        now.since(None) is None <==> now == (ObservabilityFailureCount::Exact { count: 0 }),
        now.since(None) matches Some(added) ==> added == now,
        match (now, before) {
            (
                ObservabilityFailureCount::Exact { count },
                ObservabilityFailureCount::Exact { count: earlier },
            ) => {
                &&& now.since(Some(before)) is None <==> count <= earlier
                &&& now.since(Some(before)) matches Some(added) ==> (added
                    matches ObservabilityFailureCount::Exact { count: more } && earlier + more
                    == count)
            },
            (
                ObservabilityFailureCount::Exact { count },
                ObservabilityFailureCount::AtLeast { minimum },
            ) => {
                &&& now.since(Some(before)) is None <==> count <= minimum
                &&& now.since(Some(before)) matches Some(added) ==> (added
                    matches ObservabilityFailureCount::Exact { count: more } && minimum + more
                    == count)
            },
            (
                ObservabilityFailureCount::AtLeast { minimum },
                ObservabilityFailureCount::Exact { count: earlier },
            ) => {
                &&& now.since(Some(before)) matches Some(ObservabilityFailureCount::AtLeast {
                    minimum: more,
                })
                &&& more >= 1
                &&& minimum > earlier ==> earlier + more == minimum
                &&& minimum <= earlier ==> more == 1
            },
            (
                ObservabilityFailureCount::AtLeast { minimum },
                ObservabilityFailureCount::AtLeast { minimum: earlier },
            ) => {
                &&& now.since(Some(before)) is None <==> minimum <= earlier
                &&& now.since(Some(before)) matches Some(added) ==> (added
                    matches ObservabilityFailureCount::AtLeast { minimum: more } && earlier + more
                    == minimum)
            },
        },
{
}

/// The kinds of failed operations have one place each, in the order in which they are listed.
pub proof fn kinds_have_one_place_each(left: SafeIoKind, right: SafeIoKind)
    ensures
        left.position() == right.position() <==> left == right,
        0 <= left.position() < 14,
        left is NotFound && right is PermissionDenied ==> left.position() < right.position(),
        left is PermissionDenied && right is AlreadyExists ==> left.position() < right.position(),
        left is AlreadyExists && right is BrokenPipe ==> left.position() < right.position(),
        left is BrokenPipe && right is WouldBlock ==> left.position() < right.position(),
        left is WouldBlock && right is InvalidInput ==> left.position() < right.position(),
        left is InvalidInput && right is InvalidData ==> left.position() < right.position(),
        left is InvalidData && right is TimedOut ==> left.position() < right.position(),
        left is TimedOut && right is WriteZero ==> left.position() < right.position(),
        left is WriteZero && right is Interrupted ==> left.position() < right.position(),
        left is Interrupted && right is Unsupported ==> left.position() < right.position(),
        left is Unsupported && right is UnexpectedEof ==> left.position() < right.position(),
        left is UnexpectedEof && right is OutOfMemory ==> left.position() < right.position(),
        left is OutOfMemory && right is Other ==> left.position() < right.position(),
{
}

} // verus!
