//! What holds of identities, file systems and walks on Windows.

use vstd::prelude::*;
use crate::diagnostic;
use crate::diagnostic::{IoError, SafeIoKind};
use crate::text;
use crate::windows;
use crate::windows::{
    DiagnosticAction, DiagnosticFailureKind, DiagnosticReason, DiagnosticSubject, DirectoryStep,
    FileIdentity, LockStep, OpenedObject, SafeDiagnostic, VolumeAnswer, VolumeQuestion,
    VolumeVerdict, WindowsFsError,
};
use crate::windows_walk;
use crate::windows_walk::{Opener, WalkPurpose, WalkReply, WalkRequest, WalkState};

verus! {

/// Bytes are written as two lower-case hexadecimal digits each, in order, which read back as
/// the bytes.
pub proof fn bytes_read_back(bytes: Seq<u8>, i: int)
    requires
        0 <= i < bytes.len(),
    ensures
        windows::hex_bytes(bytes).len() == 2 * bytes.len(),
        text::hex_value(windows::hex_bytes(bytes).subrange(2 * i, 2 * i + 2)) == bytes[i],
        forall|k: int|
            2 * i <= k < 2 * i + 2 ==> ('0' <= #[trigger] windows::hex_bytes(bytes)[k] <= '9') || ('a'
                <= windows::hex_bytes(bytes)[k] <= 'f'),
    decreases bytes.len(),
{
    let before = bytes.drop_last();
    let own = text::hex_fixed(bytes.last() as nat, 2);
    text::hex_digits_read_back(bytes.last() as nat, 2);
    lemma_hex_length(before);
    let all = windows::hex_bytes(bytes);
    if i < before.len() {
        bytes_read_back(before, i);
        assert(before[i] == bytes[i]);
        assert(all.subrange(2 * i, 2 * i + 2) =~= windows::hex_bytes(before).subrange(
            2 * i,
            2 * i + 2,
        ));
        assert forall|k: int| 2 * i <= k < 2 * i + 2 implies ('0' <= #[trigger] all[k] <= '9') || (
        'a' <= all[k] <= 'f') by {
            assert(all[k] == windows::hex_bytes(before)[k]);
        }
    } else {
        assert(all.subrange(2 * i, 2 * i + 2) =~= own);
        assert(vstd::arithmetic::power::pow(16, 2) == 256) by {
            reveal(vstd::arithmetic::power::pow);
            assert(vstd::arithmetic::power::pow(16, 2) == 16 * vstd::arithmetic::power::pow(16, 1));
            assert(vstd::arithmetic::power::pow(16, 1) == 16 * vstd::arithmetic::power::pow(16, 0));
        }
        assert forall|k: int| 2 * i <= k < 2 * i + 2 implies ('0' <= #[trigger] all[k] <= '9') || (
        'a' <= all[k] <= 'f') by {
            assert(all[k] == own[k - 2 * i]);
        }
    }
}

proof fn lemma_hex_length(bytes: Seq<u8>)
    ensures
        windows::hex_bytes(bytes).len() == 2 * bytes.len(),
    decreases bytes.len(),
{
    if bytes.len() > 0 {
        lemma_hex_length(bytes.drop_last());
        text::hex_digits_read_back(bytes.last() as nat, 2);
    }
}

/// A UUID is written as its bytes in groups of four, two, two, two and six, with a hyphen
/// between the groups.
pub proof fn uuids_are_grouped(bytes: Seq<u8>)
    requires
        bytes.len() == 16,
    ensures
        ({
            let shown = windows::hyphenated(bytes);
            &&& shown.len() == 36
            &&& shown[8] == '-' && shown[13] == '-' && shown[18] == '-' && shown[23] == '-'
            &&& shown.subrange(0, 8) == windows::hex_bytes(bytes.subrange(0, 4))
            &&& shown.subrange(9, 13) == windows::hex_bytes(bytes.subrange(4, 6))
            &&& shown.subrange(14, 18) == windows::hex_bytes(bytes.subrange(6, 8))
            &&& shown.subrange(19, 23) == windows::hex_bytes(bytes.subrange(8, 10))
            &&& shown.subrange(24, 36) == windows::hex_bytes(bytes.subrange(10, 16))
        }),
{
    lemma_hex_length(bytes.subrange(0, 4));
    lemma_hex_length(bytes.subrange(4, 6));
    lemma_hex_length(bytes.subrange(6, 8));
    lemma_hex_length(bytes.subrange(8, 10));
    lemma_hex_length(bytes.subrange(10, 16));
    let shown = windows::hyphenated(bytes);
    assert(shown.subrange(0, 8) =~= windows::hex_bytes(bytes.subrange(0, 4)));
    assert(shown.subrange(9, 13) =~= windows::hex_bytes(bytes.subrange(4, 6)));
    assert(shown.subrange(14, 18) =~= windows::hex_bytes(bytes.subrange(6, 8)));
    assert(shown.subrange(19, 23) =~= windows::hex_bytes(bytes.subrange(8, 10)));
    assert(shown.subrange(24, 36) =~= windows::hex_bytes(bytes.subrange(10, 16)));
}

/// Random bytes become a random UUID by two marks alone: the version in the upper half of the
/// seventh byte, the variant in the upper two bits of the ninth.
pub proof fn uuids_are_marked_as_random(bytes: Seq<u8>, i: int)
    requires
        bytes.len() == 16,
        0 <= i < 16,
    ensures
        windows::marked(bytes).len() == 16,
        windows::marked(bytes)[6] / 16 == 4,
        windows::marked(bytes)[6] % 16 == bytes[6] % 16,
        windows::marked(bytes)[8] / 64 == 2,
        windows::marked(bytes)[8] % 64 == bytes[8] % 64,
        i != 6 && i != 8 ==> windows::marked(bytes)[i] == bytes[i],
{
}

/// Whether the unit is half of a pair.
pub open spec fn is_half(unit: u16) -> bool {
    0xd800 <= unit <= 0xdfff
}

/// A unit that is no half stands for the character of its number.
pub proof fn single_units_stand_for_themselves(unit: u16, rest: Seq<u16>)
    requires
        !is_half(unit),
    ensures
        windows::utf16_text(seq![unit] + rest) == seq![unit as char] + windows::utf16_text(rest),
{
    let all = seq![unit] + rest;
    assert(all.skip(1) =~= rest);
}

/// Two halves in order stand for one character, the number of which they share.
pub proof fn pairs_stand_for_one_character(c: char, rest: Seq<u16>)
    requires
        c as int >= 0x1_0000,
    ensures
        ({
            let number = c as int - 0x1_0000;
            let high = (0xd800 + number / 0x400) as u16;
            let low = (0xdc00 + number % 0x400) as u16;
            windows::utf16_text(seq![high, low] + rest) == seq![c] + windows::utf16_text(rest)
        }),
{
    let number = c as int - 0x1_0000;
    let high = (0xd800 + number / 0x400) as u16;
    let low = (0xdc00 + number % 0x400) as u16;
    let all = seq![high, low] + rest;
    assert(0 <= number < 0x10_0000);
    assert(high as int == 0xd800 + number / 0x400);
    assert(low as int == 0xdc00 + number % 0x400);
    assert(all[0] == high && all[1] == low);
    assert(all.skip(2) =~= rest);
    assert(0x1_0000 + (high - 0xd800) * 0x400 + (low - 0xdc00) == c as int);
}

/// A half without its other half is replaced.
pub proof fn lone_halves_are_replaced(unit: u16, rest: Seq<u16>)
    requires
        is_half(unit),
        unit >= 0xdc00 || rest.len() == 0 || !(0xdc00 <= rest[0] <= 0xdfff),
    ensures
        windows::utf16_text(seq![unit] + rest) == seq!['\u{fffd}'] + windows::utf16_text(rest),
        windows::utf16_text(Seq::empty()).len() == 0,
{
    let all = seq![unit] + rest;
    assert(all.skip(1) =~= rest);
    if rest.len() > 0 {
        assert(all[1] == rest[0]);
    }
}

/// A name ends at its first zero, or with the buffer.
pub proof fn names_end_at_the_first_zero(name: Seq<u16>, rest: Seq<u16>)
    requires
        forall|i: int| 0 <= i < name.len() ==> #[trigger] name[i] != 0,
    ensures
        windows::up_to_nul(name) == name,
        windows::up_to_nul(name.push(0) + rest) == name,
    decreases name.len(),
{
    let all = name.push(0) + rest;
    if name.len() > 0 {
        let shorter = name.drop_first();
        assert forall|i: int| 0 <= i < shorter.len() implies #[trigger] shorter[i] != 0 by {
            assert(shorter[i] == name[i + 1]);
        }
        names_end_at_the_first_zero(shorter, rest);
        assert(all.drop_first() =~= shorter.push(0) + rest);
        assert(name[0] != 0);
        assert(all[0] == name[0]);
        assert(seq![name[0]] + shorter =~= name);
    } else {
        assert(all[0] == 0);
        assert(name =~= Seq::empty());
    }
}

/// The name of the file system is read in either case.
pub proof fn file_systems_are_named_in_either_case(name: Seq<char>)
    ensures
        windows::is_ntfs(name) <==> name.len() == 4 && (name[0] == 'N' || name[0] == 'n') && (name[1]
            == 'T' || name[1] == 't') && (name[2] == 'F' || name[2] == 'f') && (name[3] == 'S'
            || name[3] == 's'),
{
}

/// Someone else has the lock exactly when the system says so with one of two codes. A status
/// is written as the number with the same thirty-two bits.
pub proof fn system_codes_are_read_as_they_are(source: IoError, status: i32)
    ensures
        windows::is_contention(source) <==> source.raw_os_code == Some(32i32) || source.raw_os_code
            == Some(33i32),
        windows::unsigned(status) < 0x1_0000_0000,
        windows::unsigned(status) == status || windows::unsigned(status) == status + 0x1_0000_0000,
{
}

/// A failure says where it was, and of which kind, unless the system has a code for it.
pub proof fn failures_say_where_they_were(error: WindowsFsError)
    ensures
        error.place() is None <==> error is Cryptography,
        error matches WindowsFsError::Io { path, .. } ==> error.place() == Some(path@),
        error matches WindowsFsError::ReparsePoint { path } ==> error.place() == Some(path@),
        error matches WindowsFsError::NonLocalVolume { path } ==> error.place() == Some(path@),
        error matches WindowsFsError::NonNtfsVolume { path, .. } ==> error.place() == Some(path@),
        error matches WindowsFsError::CaseSensitiveDirectory { path } ==> error.place() == Some(path@),
        error matches WindowsFsError::LockCancelled { path } ==> error.place() == Some(path@),
        error matches WindowsFsError::RenameTargetExists { path } ==> error.place() == Some(path@),
        error matches WindowsFsError::FileIdentityChanged { path } ==> error.place() == Some(path@),
        error.failure_kind() is None <==> error is Io || error is Cryptography,
        error.failure_kind() == Some(DiagnosticFailureKind::ReparsePointForbidden) <==> error
            is ReparsePoint,
        error.failure_kind() == Some(DiagnosticFailureKind::NonLocalVolume) <==> error
            is NonLocalVolume,
        error.failure_kind() == Some(DiagnosticFailureKind::NonNtfsVolume) <==> error is NonNtfsVolume,
        error.failure_kind() == Some(DiagnosticFailureKind::CaseSensitiveDirectory) <==> error
            is CaseSensitiveDirectory,
        error.failure_kind() == Some(DiagnosticFailureKind::LockCancelled) <==> error is LockCancelled,
        error.failure_kind() == Some(DiagnosticFailureKind::TargetAlreadyExists) <==> error
            is RenameTargetExists,
        error.failure_kind() == Some(DiagnosticFailureKind::FileIdentityChanged) <==> error
            is FileIdentityChanged,
{
}

/// An answer belongs to the question that was asked; a failure answers every question.
pub proof fn answers_belong_to_their_question(answer: VolumeAnswer, question: VolumeQuestion)
    ensures
        answer.answers(question) <==> ({
            ||| answer is Failed
            ||| answer is DriveType && question is DriveType
            ||| answer is FileSystem && question is FileSystem
            ||| answer is CaseSensitivity && question is CaseSensitivity
        }),
        question is DriveType ==> windows::question_text(question) == "读取卷根目录",
        question is FileSystem ==> windows::question_text(question) == "读取卷信息",
        question is CaseSensitivity ==> windows::question_text(question) == "读取目录大小写语义",
{
}

/// Something is deleted exactly when it stands for itself, is of the expected kind and is
/// the very thing that was meant. Otherwise the first of these that fails is told.
pub proof fn only_the_expected_is_deleted(
    path: Seq<char>,
    expected: FileIdentity,
    directory: bool,
    object: OpenedObject,
    result: Result<(), WindowsFsError>,
)
    requires
        windows::is_deletion_verdict(path, expected, directory, object, result),
    ensures
        ({
            let own = object.attributes & 0x400 == 0;
            let kind = if directory {
                object.is_directory
            } else {
                !object.is_directory && object.is_file
            };
            let meant = object.identity matches Ok(identity) && identity.volume() == expected.volume()
                && identity.id() == expected.id();
            &&& result is Ok <==> own && kind && meant
            &&& (result matches Err(error) && error is ReparsePoint) <== !own
            &&& (result matches Err(WindowsFsError::Io { operation, path: p, source }) && operation
                == "确认待删除对象类型" && p@ == path && source.kind is InvalidInput) <== own && !kind
            &&& own && kind ==> (object.identity matches Err(error) ==> result == Err::<
                (),
                WindowsFsError,
            >(error))
            &&& own && kind && !meant && object.identity is Ok ==> (result
                matches Err(WindowsFsError::FileIdentityChanged { path: p }) && p@ == path)
        }),
{
}

/// Every component but the last is opened as a directory; the last one as the walk needs it.
pub proof fn components_are_opened_as_needed(purpose: WalkPurpose, index: int, count: int)
    requires
        0 <= index < count,
    ensures
        ({
            let opener = purpose.opener_at(index, count);
            &&& index < count - 1 ==> opener is Directory
            &&& index == count - 1 ==> ({
                &&& purpose is CreateDirectories <==> opener is Directory
                &&& purpose is Pin <==> opener is AnyObject
                &&& purpose is PinForSnapshot <==> opener is FileForSnapshot
            })
        }),
        windows_walk::opening_operation(Opener::Directory) == "打开目录",
        windows_walk::opening_operation(Opener::AnyObject) == "打开路径",
        windows_walk::opening_operation(Opener::FileForSnapshot) == "打开稳定快照文件",
{
}

/// Whether a walk has ended with a failure of the system at `path`.
pub open spec fn failed_at(next: WalkState, path: Seq<char>, source: IoError) -> bool {
    next matches WalkState::Finished { result: Err(WindowsFsError::Io { path: p, source: s, .. }) }
        && p@ == path && s == source
}

/// How a walk goes on: to the next component when one is open and stands for itself, to the
/// making of a directory that is missing where that is wanted, and otherwise to its end.
pub proof fn walks_go_on_component_by_component(
    absolute: Seq<char>,
    components: Seq<String>,
    purpose: WalkPurpose,
    state: WalkState,
    reply: WalkReply,
    next: WalkState,
    index: int,
)
    requires
        components.len() <= usize::MAX,
        state.expects(reply),
        state.leads_to(absolute, components, purpose, reply, next),
        0 <= index < components.len(),
        (state matches WalkState::Opening { index: i } && i == index) || (state
            matches WalkState::Reopening { index: i } && i == index),
    ensures
        ({
            let made = state is Opening && purpose is CreateDirectories;
            let path = components[index]@;
            match reply {
                WalkReply::Opened { attributes } => if attributes & 0x400 != 0 {
                    next matches WalkState::Finished {
                        result: Err(WindowsFsError::ReparsePoint { path: p }),
                    } && p@ == path
                } else if index == components.len() - 1 {
                    next is Resolving
                } else {
                    next matches WalkState::Opening { index: i } && i == index + 1
                },
                WalkReply::OpenFailed(source) => if made && source.kind is NotFound {
                    next matches WalkState::Creating { index: i } && i == index
                } else {
                    failed_at(next, path, source)
                },
                WalkReply::AttributesFailed(source) => if made && source.kind is NotFound {
                    next matches WalkState::Creating { index: i } && i == index
                } else {
                    failed_at(next, path, source)
                },
                _ => false,
            }
        }),
{
}

/// How a walk begins, makes directories and ends.
pub proof fn walks_begin_and_end_as_told(
    absolute: Seq<char>,
    components: Seq<String>,
    purpose: WalkPurpose,
    state: WalkState,
    reply: WalkReply,
    next: WalkState,
)
    requires
        components.len() <= usize::MAX,
        state.expects(reply),
        state.leads_to(absolute, components, purpose, reply, next),
        !(state is Opening),
        !(state is Reopening),
    ensures
        match (state, reply) {
            (WalkState::Reserving, WalkReply::Done(Ok(_))) => if components.len() == 0 {
                next is Resolving
            } else {
                next matches WalkState::Opening { index } && index == 0
            },
            (WalkState::Creating { index }, WalkReply::Done(Ok(_))) => next
                matches WalkState::Reopening { index: i } && i == index,
            (WalkState::Creating { index }, WalkReply::Done(Err(source))) => if source.kind
                is AlreadyExists {
                next matches WalkState::Reopening { index: i } && i == index
            } else {
                failed_at(next, components[index as int]@, source)
            },
            (WalkState::Resolving, WalkReply::Resolved(Ok(resolved))) => next
                matches WalkState::Finished { result: Ok(path) } && path == resolved,
            (_, WalkReply::Done(Err(source))) => failed_at(next, absolute, source),
            (_, WalkReply::Resolved(Err(source))) => failed_at(next, absolute, source),
            _ => false,
        },
{
}

/// A refusal says what was being done, where, and why; the system gave no code for it.
pub proof fn refusals_say_what_was_expected(
    error: WindowsFsError,
    operation: &'static str,
    path: Seq<char>,
    reason: &'static str,
)
    requires
        windows::is_refusal(error, operation, path, reason),
    ensures
        error matches WindowsFsError::Io { operation: o, path: p, source } && o == operation && p@
            == path && source.kind is InvalidInput && source.raw_os_code is None && source.text@
            == reason@,
{
}

/// A directory is accepted after three answers: it is on a fixed drive, its file system is
/// NTFS, and names in it are read in either case. Each good answer leads to the next
/// question, and each bad one, or a failure, is told as what it is.
pub proof fn only_local_directories_are_accepted(
    path: Seq<char>,
    question: VolumeQuestion,
    answer: VolumeAnswer,
    result: Result<VolumeVerdict, WindowsFsError>,
)
    requires
        windows::is_volume_verdict(path, question, answer, result),
    ensures
        answer matches VolumeAnswer::DriveType(kind) ==> {
            &&& kind == 3 ==> (result matches Ok(VolumeVerdict::Ask(VolumeQuestion::FileSystem)))
            &&& kind != 3 ==> (result matches Err(WindowsFsError::NonLocalVolume { path: p }) && p@
                == path)
        },
        answer matches VolumeAnswer::FileSystem(buffer) ==> {
            let name = windows::utf16_text(windows::up_to_nul(buffer@));
            &&& windows::is_ntfs(name) ==> (result matches Ok(
                VolumeVerdict::Ask(VolumeQuestion::CaseSensitivity),
            ))
            &&& !windows::is_ntfs(name) ==> (result matches Err(
                WindowsFsError::NonNtfsVolume { path: p, actual },
            ) && p@ == path && actual@ == name)
        },
        answer matches VolumeAnswer::CaseSensitivity(flags) ==> {
            &&& flags & 1 == 0 ==> (result matches Ok(VolumeVerdict::Accepted))
            &&& flags & 1 != 0 ==> (result matches Err(
                WindowsFsError::CaseSensitiveDirectory { path: p },
            ) && p@ == path)
        },
        answer matches VolumeAnswer::Failed(failure) ==> (result matches Err(
            WindowsFsError::Io { path: p, source, .. },
        ) && p@ == path && source == failure),
        result matches Ok(VolumeVerdict::Accepted) ==> answer is CaseSensitivity,
{
}

/// A directory that is there is kept and one that is missing is made; one that someone else
/// made meanwhile is opened like one's own. Every other failure ends the attempt as it is.
pub proof fn missing_directories_are_made(
    path: Seq<char>,
    opened: Result<(), WindowsFsError>,
    made: Result<(), IoError>,
    step: DirectoryStep,
)
    ensures
        windows::step_after_opening(opened) is Keep <==> opened is Ok,
        windows::step_after_opening(opened) is Create <==> (opened matches Err(
            WindowsFsError::Io { source, .. },
        ) && source.kind == SafeIoKind::NotFound),
        !(windows::step_after_opening(opened) is Open),
        windows::step_after_opening(opened) matches DirectoryStep::Fail(error) ==> opened == Err::<
            (),
            WindowsFsError,
        >(error),
        windows::is_step_after_creating(path, made, step) ==> ({
            &&& step is Open <==> (made matches Err(source) ==> source.kind
                == SafeIoKind::AlreadyExists)
            &&& step is Open || step is Fail
            &&& step matches DirectoryStep::Fail(error) ==> (error matches WindowsFsError::Io {
                operation,
                path: p,
                source,
            } && operation == "建立目录组件" && p@ == path && made == Err::<(), IoError>(source))
        }),
{
}

/// A lock is had when the attempt succeeds, waited for while someone else has it, and given
/// up for every other failure.
pub proof fn contended_locks_are_waited_for(path: Seq<char>, attempt: Result<(), IoError>, step: LockStep)
    requires
        windows::is_step_after_locking(path, attempt, step),
    ensures
        step is Acquired <==> attempt is Ok,
        step is Wait <==> (attempt matches Err(source) && (source.raw_os_code == Some(32i32)
            || source.raw_os_code == Some(33i32))),
        !(step is Attempt),
        step matches LockStep::Fail(error) ==> (error matches WindowsFsError::Io {
            operation,
            path: p,
            source,
        } && operation == "取得文件锁" && p@ == path && attempt == Err::<(), IoError>(source)),
{
}

/// A walk asks for one thing at a time: room for all components first, then each component
/// under its own path, opened, or made where it was missing, and the whole path at the end.
pub proof fn walks_ask_for_one_component_at_a_time(
    state: WalkState,
    absolute: Seq<char>,
    components: Seq<String>,
    purpose: WalkPurpose,
    request: WalkRequest<'_>,
)
    requires
        windows_walk::is_request(state, absolute, components, purpose, request),
    ensures
        state is Reserving <==> request is Reserve,
        state is Creating <==> request is Create,
        state is Opening || state is Reopening <==> request is Open,
        state is Resolving <==> request is Resolve,
        state is Finished <==> request is Nothing,
        request matches WalkRequest::Reserve { count } ==> count == components.len() as usize,
        request matches WalkRequest::Resolve { path } ==> path@ == absolute,
        state matches WalkState::Creating { index } ==> (request matches WalkRequest::Create { path }
            && path@ == components[index as int]@),
        state matches WalkState::Opening { index } ==> (request matches WalkRequest::Open {
            path,
            opener,
        } && path@ == components[index as int]@ && opener == purpose.opener_at(
            index as int,
            components.len() as int,
        )),
        state matches WalkState::Reopening { index } ==> (request matches WalkRequest::Open {
            path,
            opener,
        } && path@ == components[index as int]@ && opener == purpose.opener_at(
            index as int,
            components.len() as int,
        )),
{
}

/// Something is renamed exactly when it stands for itself and is the very thing that was
/// confirmed. A target that is there already is told as such; every other failure is told as
/// it is.
pub proof fn only_the_confirmed_is_renamed(
    source: Seq<char>,
    expected: FileIdentity,
    object: OpenedObject,
    result: Result<(), WindowsFsError>,
    target: Seq<char>,
    failure: IoError,
    error: WindowsFsError,
)
    requires
        windows::is_rename_verdict(source, expected, object, result),
        windows::is_rename_failure(target, failure, error),
    ensures
        result is Ok <==> object.attributes & 0x400 == 0 && (object.identity matches Ok(identity)
            && identity.volume() == expected.volume() && identity.id() == expected.id()),
        object.attributes & 0x400 != 0 ==> (result matches Err(WindowsFsError::ReparsePoint { path })
            && path@ == source),
        object.attributes & 0x400 == 0 ==> (object.identity matches Err(unread) ==> result == Err::<
            (),
            WindowsFsError,
        >(unread)),
        object.attributes & 0x400 == 0 && object.identity is Ok && result is Err ==> (result
            matches Err(WindowsFsError::FileIdentityChanged { path }) && path@ == source),
        error is RenameTargetExists <==> failure.kind is AlreadyExists,
        error.place() == Some(target),
        error matches WindowsFsError::Io { operation, source: cause, .. } ==> operation
            == "无覆盖重命名" && cause == failure,
        error is Io || error is RenameTargetExists,
{
}

/// Others may always read and write what is held, and delete it only where that is allowed.
pub proof fn held_objects_can_be_shared(share_delete: bool)
    ensures
        windows::sharing(share_delete) == if share_delete {
            7int
        } else {
            3
        },
{
}

/// A failure is told with what was given, the place where it was and its kind, or the system's
/// code with the operation that failed. Only the name of a foreign file system is added.
pub proof fn failures_are_told_without_words<C, S, I>(
    error: WindowsFsError,
    code: C,
    stage: S,
    impact: I,
    fallback: DiagnosticAction,
    told: SafeDiagnostic<C, S, I>,
)
    requires
        error.is_told_by(code, stage, impact, fallback, told),
    ensures
        told.code == code && told.stage == stage && told.impact == impact,
        error is Io ==> told.action is CheckPathAndPermissions,
        error is LockCancelled || error is Cryptography ==> told.action is Retry,
        !(error is Io || error is LockCancelled || error is Cryptography) ==> told.action == fallback,
        error is Cryptography <==> !(told.subject is Path),
        error.place() matches Some(place) ==> (told.subject matches DiagnosticSubject::Path { path }
            && path@ == diagnostic::safe_path(place)),
        error matches WindowsFsError::Cryptography { operation, status } ==> told.subject == (
        DiagnosticSubject::Operation { operation }) && told.reason == (
        DiagnosticReason::WindowsStatus { operation, status }),
        error matches WindowsFsError::Io { operation, source, .. } ==> (told.reason
            matches DiagnosticReason::Io { operation: named, failure } && named == operation
            && failure.kind == source.kind && failure.raw_os_code == source.raw_os_code),
        error.failure_kind() matches Some(kind) ==> told.reason == DiagnosticReason::Failure(kind),
        told.recovery@.len() == 0 <==> !(error is NonNtfsVolume),
        error matches WindowsFsError::NonNtfsVolume { actual, .. } ==> told.recovery@.len() == 1
            && told.recovery@[0]@ == diagnostic::single_line("filesystem="@ + actual@),
{
}

} // verus!
