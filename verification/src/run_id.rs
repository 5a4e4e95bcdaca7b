//! The natural numbers of a project's runs, and which one comes next.

use vstd::prelude::*;
use crate::diagnostic::SafeIoKind;
use crate::text;
use crate::text::{characters, push_padded_decimal, same_chars};

verus! {

/// What every run's name starts with.
pub open spec fn run_prefix() -> Seq<char> {
    seq!['r', 'u', 'n', '-']
}

/// The name of run `n`: its number with at least six digits.
pub open spec fn run_text(n: u64) -> Seq<char> {
    run_prefix() + text::padded_decimal(n as nat, 6)
}

/// The ending of a log's file name.
pub open spec fn log_suffix() -> Seq<char> {
    seq!['.', 'j', 's', 'o', 'n', 'l']
}

pub open spec fn is_digit(c: char) -> bool {
    '0' <= c <= '9'
}

pub open spec fn all_digits(digits: Seq<char>) -> bool {
    forall|i: int| 0 <= i < digits.len() ==> is_digit(#[trigger] digits[i])
}

/// The number that the digits write down.
pub open spec fn value_of(digits: Seq<char>) -> int
    decreases digits.len(),
{
    if digits.len() == 0 {
        0
    } else {
        value_of(digits.drop_last()) * 10 + (digits.last() as int - '0' as int)
    }
}

proof fn lemma_decimal(n: nat)
    ensures
        text::decimal(n).len() > 0,
        all_digits(text::decimal(n)),
        value_of(text::decimal(n)) == n,
    decreases n,
{
    if n < 10 {
        let digits = text::decimal(n);
        assert(digits.drop_last() =~= Seq::<char>::empty());
        assert(digits[0] == text::digit(n));
        reveal_with_fuel(value_of, 2);
    } else {
        lemma_decimal(n / 10);
        let digits = text::decimal(n);
        assert(digits.drop_last() =~= text::decimal(n / 10));
        assert(digits.last() == text::digit(n % 10));
        assert forall|i: int| 0 <= i < digits.len() implies is_digit(#[trigger] digits[i]) by {
            if i < digits.len() - 1 {
                assert(digits[i] == text::decimal(n / 10)[i]);
            }
        }
    }
}

/// Zeros in front change nothing.
proof fn lemma_leading_zeros(zeros: Seq<char>, digits: Seq<char>)
    requires
        forall|i: int| 0 <= i < zeros.len() ==> #[trigger] zeros[i] == '0',
        all_digits(digits),
    ensures
        all_digits(zeros + digits),
        value_of(zeros + digits) == value_of(digits),
    decreases digits.len(), zeros.len(),
{
    let all = zeros + digits;
    if digits.len() > 0 {
        let shorter = digits.drop_last();
        assert(all_digits(shorter)) by {
            assert forall|i: int| 0 <= i < shorter.len() implies is_digit(#[trigger] shorter[i]) by {
                assert(shorter[i] == digits[i]);
            }
        }
        lemma_leading_zeros(zeros, shorter);
        assert(all.drop_last() =~= zeros + shorter);
        assert(all.last() == digits.last());
    } else if zeros.len() > 0 {
        lemma_leading_zeros(zeros.drop_last(), digits);
        assert(all.drop_last() =~= zeros.drop_last() + digits);
        assert(all.last() == '0');
    }
    assert forall|i: int| 0 <= i < all.len() implies is_digit(#[trigger] all[i]) by {
        if i >= zeros.len() {
            assert(all[i] == digits[i - zeros.len()]);
        } else {
            assert(all[i] == zeros[i]);
        }
    }
}

/// The first digits of a number are worth no more than all of them.
proof fn lemma_prefix_is_smaller(digits: Seq<char>, k: int)
    requires
        all_digits(digits),
        0 <= k <= digits.len(),
    ensures
        0 <= value_of(digits.take(k)) <= value_of(digits),
    decreases digits.len(),
{
    if k == digits.len() {
        assert(digits.take(k) =~= digits);
        if k > 0 {
            let shorter = digits.drop_last();
            assert forall|i: int| 0 <= i < shorter.len() implies is_digit(#[trigger] shorter[i]) by {
                assert(shorter[i] == digits[i]);
            }
            lemma_prefix_is_smaller(shorter, k - 1);
            assert(shorter.take(k - 1) =~= shorter);
            assert(is_digit(digits[k - 1]));
        }
    } else {
        let shorter = digits.drop_last();
        assert forall|i: int| 0 <= i < shorter.len() implies is_digit(#[trigger] shorter[i]) by {
            assert(shorter[i] == digits[i]);
        }
        lemma_prefix_is_smaller(shorter, k);
        assert(shorter.take(k) =~= digits.take(k));
        assert(is_digit(digits[digits.len() - 1]));
    }
}

proof fn lemma_run_text(n: u64)
    ensures
        run_text(n).len() >= 4,
        run_text(n).take(4) == run_prefix(),
        all_digits(run_text(n).skip(4)),
        value_of(run_text(n).skip(4)) == n,
{
    lemma_decimal(n as nat);
    let digits = text::decimal(n as nat);
    let padded = text::padded_decimal(n as nat, 6);
    if digits.len() < 6 {
        lemma_leading_zeros(Seq::new((6 - digits.len()) as nat, |i: int| '0'), digits);
    }
    assert(run_text(n).take(4) =~= run_prefix());
    assert(run_text(n).skip(4) =~= padded);
}

/// Different runs have different names.
pub proof fn run_names_are_distinct(left: u64, right: u64)
    requires
        run_text(left) == run_text(right),
    ensures
        left == right,
{
    lemma_run_text(left);
    lemma_run_text(right);
}

/// The number of a run.
#[derive(Clone, Copy, Debug, PartialEq, Eq, Structural)]
pub struct RunId {
    sequence: u64,
}

impl RunId {
    #[verifier::type_invariant]
    spec fn is_valid(&self) -> bool {
        self.sequence > 0
    }

    pub closed spec fn number(self) -> u64 {
        self.sequence
    }

    /// Runs are numbered from one.
    pub fn from_sequence(sequence: u64) -> (result: Option<Self>)
        ensures
            match result {
                Some(id) => sequence > 0 && id.number() == sequence,
                None => sequence == 0,
            },
    {
        if sequence == 0 {
            None
        } else {
            Some(RunId { sequence })
        }
    }

    pub fn sequence(self) -> (sequence: u64)
        ensures
            sequence == self.number(),
            sequence > 0,
    {
        proof {
            use_type_invariant(&self);
        }
        self.sequence
    }

    /// The run's name.
    pub fn name(self) -> (name: String)
        ensures
            name@ == run_text(self.number()),
    {
        let mut name = String::new();
        name.push('r');
        name.push('u');
        name.push('n');
        name.push('-');
        assert(name@ =~= run_prefix());
        push_padded_decimal(&mut name, self.sequence, 6);
        name
    }

    /// The file name of the run's log.
    pub fn log_name(self) -> (name: String)
        ensures
            name@ == run_text(self.number()) + log_suffix(),
    {
        let mut name = self.name();
        name.push('.');
        name.push('j');
        name.push('s');
        name.push('o');
        name.push('n');
        name.push('l');
        assert(name@ =~= run_text(self.number()) + log_suffix());
        name
    }

    /// The run that has this name.
    pub fn parse(name: &str) -> (result: Option<Self>)
        ensures
            match result {
                Some(id) => id.number() > 0 && name@ == run_text(id.number()),
                None => forall|n: u64| n > 0 ==> name@ != #[trigger] run_text(n),
            },
    {
        let chars = characters(name);
        parse_chars(&chars)
    }
}

fn parse_chars(chars: &Vec<char>) -> (result: Option<RunId>)
    ensures
        match result {
            Some(id) => id.number() > 0 && chars@ == run_text(id.number()),
            None => forall|n: u64| n > 0 ==> chars@ != #[trigger] run_text(n),
        },
{
    if chars.len() < 4 || chars[0] != 'r' || chars[1] != 'u' || chars[2] != 'n' || chars[3] != '-' {
        assert forall|n: u64| n > 0 implies chars@ != #[trigger] run_text(n) by {
            lemma_run_text(n);
            if chars@ == run_text(n) {
                assert(chars@.take(4)[0] == 'r' && chars@.take(4)[1] == 'u' && chars@.take(4)[2] == 'n'
                    && chars@.take(4)[3] == '-');
            }
        }
        return None;
    }
    let ghost digits = chars@.skip(4);
    let mut value: u64 = 0;
    let mut i: usize = 4;
    assert(digits.take(0).len() == 0);
    while i < chars.len()
        invariant
            4 <= i <= chars.len(),
            digits == chars@.skip(4),
            value == value_of(digits.take(i - 4)),
        decreases chars.len() - i,
    {
        let c: char = chars[i];
        proof {
            assert(digits[i - 4] == c);
            assert(digits.take(i - 3).drop_last() =~= digits.take(i - 4));
            assert(digits.take(i - 3).last() == c);
        }
        let next: Option<u64> = match digit_value(c) {
            Some(d) => match value.checked_mul(10) {
                Some(tens) => tens.checked_add(d),
                None => None,
            },
            None => None,
        };
        match next {
            Some(next) => {
                value = next;
            },
            None => {
                assert forall|n: u64| n > 0 implies chars@ != #[trigger] run_text(n) by {
                    lemma_run_text(n);
                    if chars@ == run_text(n) {
                        assert(is_digit(digits[i - 4]));
                        lemma_prefix_is_smaller(digits, i - 3);
                    }
                }
                return None;
            },
        }
        i += 1;
    }
    assert(digits.take(chars.len() - 4) =~= digits);
    match RunId::from_sequence(value) {
        Some(id) => {
            let name = id.name();
            let expected = characters(name.as_str());
            if same_chars(chars, &expected) {
                Some(id)
            } else {
                assert forall|n: u64| n > 0 implies chars@ != #[trigger] run_text(n) by {
                    lemma_run_text(n);
                    if chars@ == run_text(n) {
                        assert(n == value);
                    }
                }
                None
            }
        },
        None => {
            assert forall|n: u64| n > 0 implies chars@ != #[trigger] run_text(n) by {
                lemma_run_text(n);
            }
            None
        },
    }
}

fn digit_value(c: char) -> (value: Option<u64>)
    ensures
        match value {
            Some(value) => is_digit(c) && value == c as int - '0' as int && value < 10,
            None => !is_digit(c),
        },
{
    if '0' <= c && c <= '9' {
        Some((c as u32 - '0' as u32) as u64)
    } else {
        None
    }
}

/// What a run leaves in a project.
#[derive(Clone, Copy, Debug, PartialEq, Eq, Structural)]
pub enum RunArtifactKind {
    Log,
    TaskRecordDirectory,
}

/// Whether `name` is what run `n` leaves behind.
pub open spec fn is_artifact(name: Seq<char>, kind: RunArtifactKind, n: u64) -> bool {
    n > 0 && name == (match kind {
        RunArtifactKind::Log => run_text(n) + log_suffix(),
        RunArtifactKind::TaskRecordDirectory => run_text(n),
    })
}

/// The run that left `name` behind.
fn artifact_run(name: &str, kind: RunArtifactKind) -> (result: Option<RunId>)
    ensures
        match result {
            Some(id) => is_artifact(name@, kind, id.number()),
            None => forall|n: u64| !#[trigger] is_artifact(name@, kind, n),
        },
{
    let chars = characters(name);
    let found = match kind {
        RunArtifactKind::Log => {
            let length: usize = chars.len();
            if length < 6 || chars[length - 6] != '.' || chars[length - 5] != 'j' || chars[length - 4]
                != 's' || chars[length - 3] != 'o' || chars[length - 2] != 'n' || chars[length - 1]
                != 'l' {
                assert forall|n: u64| !#[trigger] is_artifact(name@, kind, n) by {
                    if is_artifact(name@, kind, n) {
                        let stem = run_text(n).len() as int;
                        assert(name@[stem] == '.' && name@[stem + 1] == 'j' && name@[stem + 2] == 's'
                            && name@[stem + 3] == 'o' && name@[stem + 4] == 'n' && name@[stem + 5]
                            == 'l');
                    }
                }
                return None;
            }
            let mut stem: Vec<char> = Vec::new();
            let mut i: usize = 0;
            while i < length - 6
                invariant
                    i <= length - 6,
                    length == chars.len(),
                    length >= 6,
                    stem@ == chars@.take(i as int),
                decreases length - i,
            {
                stem.push(chars[i]);
                i += 1;
            }
            proof {
                assert(chars@ =~= stem@ + log_suffix());
                assert forall|n: u64| #[trigger] is_artifact(name@, kind, n) implies stem@ == run_text(
                    n,
                ) by {
                    assert((run_text(n) + log_suffix()).take(length - 6) =~= run_text(n));
                }
            }
            parse_chars(&stem)
        },
        RunArtifactKind::TaskRecordDirectory => parse_chars(&chars),
    };
    found
}

/// The largest number among the runs that left these names behind, or zero.
pub fn maximum_sequence(names: &Vec<String>, kind: RunArtifactKind) -> (maximum: u64)
    ensures
        forall|i: int, n: u64|
            0 <= i < names.len() && #[trigger] is_artifact(names[i]@, kind, n) ==> n <= maximum,
        maximum > 0 ==> exists|i: int|
            0 <= i < names.len() && is_artifact((#[trigger] names[i])@, kind, maximum),
{
    let mut maximum: u64 = 0;
    let mut i: usize = 0;
    while i < names.len()
        invariant
            i <= names.len(),
            forall|k: int, n: u64|
                0 <= k < i && #[trigger] is_artifact(names[k]@, kind, n) ==> n <= maximum,
            maximum > 0 ==> exists|k: int|
                0 <= k < i && is_artifact((#[trigger] names[k])@, kind, maximum),
        decreases names.len() - i,
    {
        if let Some(run) = artifact_run(names[i].as_str(), kind) {
            let sequence: u64 = run.sequence();
            proof {
                assert forall|n: u64| #[trigger] is_artifact(names[i as int]@, kind, n) implies n
                    == sequence by {
                    if kind == RunArtifactKind::Log {
                        let a = run_text(n);
                        let b = run_text(sequence);
                        assert((a + log_suffix()).len() == (b + log_suffix()).len());
                        assert((a + log_suffix()).take(a.len() as int) =~= a);
                        assert((b + log_suffix()).take(b.len() as int) =~= b);
                    }
                    run_names_are_distinct(n, sequence);
                }
            }
            if sequence > maximum {
                maximum = sequence;
                assert(is_artifact(names[i as int]@, kind, maximum));
            }
        }
        i += 1;
    }
    maximum
}

/// Whether a failure to list what runs left behind says that they left nothing.
pub open spec fn is_nothing(kind: RunArtifactKind, failure: SafeIoKind, not_a_directory: bool) -> bool {
    failure == SafeIoKind::NotFound || (not_a_directory && kind == RunArtifactKind::TaskRecordDirectory)
}

/// Whether a listing that failed counts as empty: a missing directory always, and a file
/// in place of the task records, which is for their recorder to report.
pub fn counts_as_empty(kind: RunArtifactKind, failure: SafeIoKind, not_a_directory: bool) -> (empty: bool)
    ensures
        empty == is_nothing(kind, failure, not_a_directory),
{
    failure == SafeIoKind::NotFound || (not_a_directory && kind
        == RunArtifactKind::TaskRecordDirectory)
}

/// No further run can be numbered.
#[derive(Clone, Copy, Debug, PartialEq, Eq, Structural)]
pub struct RunSequenceExhausted;

impl RunSequenceExhausted {
    pub fn message(&self) -> (message: &'static str)
        ensures
            message == "运行序号已经用尽",
    {
        "运行序号已经用尽"
    }
}

/// The attempt to reserve a run's log: numbers are tried one after another until a log of
/// that name can be created.
#[derive(Debug)]
pub struct RunReservation {
    next: u64,
}

/// Whether `result` starts behind every run that left a log or a task record.
pub open spec fn is_reserved(
    logs: Seq<String>,
    task_records: Seq<String>,
    result: Result<RunReservation, RunSequenceExhausted>,
) -> bool {
    match result {
        Ok(reservation) => {
            &&& forall|i: int, n: u64|
                0 <= i < logs.len() && #[trigger] is_artifact(logs[i]@, RunArtifactKind::Log, n) ==> n
                    < reservation.candidate()
            &&& forall|i: int, n: u64|
                0 <= i < task_records.len() && #[trigger] is_artifact(
                    task_records[i]@,
                    RunArtifactKind::TaskRecordDirectory,
                    n,
                ) ==> n < reservation.candidate()
            &&& is_seen(logs, task_records, (reservation.candidate() - 1) as u64)
        },
        Err(_) => is_seen(logs, task_records, u64::MAX),
    }
}

/// Whether `result` goes on behind the number that was tried.
pub open spec fn is_next(tried: u64, result: Result<RunReservation, RunSequenceExhausted>) -> bool {
    match result {
        Ok(next) => next.candidate() == tried + 1,
        Err(_) => tried == u64::MAX,
    }
}

impl RunReservation {
    #[verifier::type_invariant]
    spec fn is_valid(&self) -> bool {
        self.next > 0
    }

    /// The number to try.
    pub closed spec fn candidate(&self) -> u64 {
        self.next
    }

    /// Starts behind every run that left a log or a task record.
    pub fn new(logs: &Vec<String>, task_records: &Vec<String>) -> (result: Result<
        Self,
        RunSequenceExhausted,
    >)
        ensures
            is_reserved(logs@, task_records@, result),
    {
        let by_logs: u64 = maximum_sequence(logs, RunArtifactKind::Log);
        let by_records: u64 = maximum_sequence(task_records, RunArtifactKind::TaskRecordDirectory);
        let maximum: u64 = if by_logs >= by_records {
            by_logs
        } else {
            by_records
        };
        if maximum == u64::MAX {
            return Err(RunSequenceExhausted);
        }
        Ok(RunReservation { next: maximum + 1 })
    }

    /// The run to try next.
    pub fn run(&self) -> (run: RunId)
        ensures
            run.number() == self.candidate(),
    {
        proof {
            use_type_invariant(self);
        }
        RunId { sequence: self.next }
    }

    /// The log of this run exists already: goes on to the next number.
    pub fn taken(self) -> (result: Result<Self, RunSequenceExhausted>)
        ensures
            is_next(self.candidate(), result),
    {
        if self.next == u64::MAX {
            Err(RunSequenceExhausted)
        } else {
            Ok(RunReservation { next: self.next + 1 })
        }
    }
}

/// Whether run `n` left something behind; before the first run there is nothing to see.
pub open spec fn is_seen(logs: Seq<String>, task_records: Seq<String>, n: u64) -> bool {
    ||| n == 0
    ||| exists|i: int| 0 <= i < logs.len() && is_artifact((#[trigger] logs[i])@, RunArtifactKind::Log, n)
    ||| exists|i: int|
        0 <= i < task_records.len() && is_artifact(
            (#[trigger] task_records[i])@,
            RunArtifactKind::TaskRecordDirectory,
            n,
        )
}

/// A run's name is `run-` and the run's number in decimal, with zeros in front where it has
/// fewer than six digits.
pub proof fn names_hold_the_number(n: u64)
    ensures
        ({
            let name = run_text(n);
            let digits = name.skip(4);
            &&& name.len() >= 10
            &&& name[0] == 'r' && name[1] == 'u' && name[2] == 'n' && name[3] == '-'
            &&& forall|i: int| 0 <= i < digits.len() ==> '0' <= #[trigger] digits[i] <= '9'
            &&& text::decimal_value(digits) == n
            &&& digits.len() > 6 ==> digits[0] != '0'
        }),
{
    let padded = text::padded_decimal(n as nat, 6);
    let plain = text::decimal(n as nat);
    let digits = run_text(n).skip(4);
    assert(digits =~= padded);
    text::padding_is_zeros_in_front(n as nat, 6);
    text::decimals_read_back(n as nat);
    let padding = padded.len() - plain.len();
    assert(padded =~= padded.take(padding) + plain) by {
        assert(padded.skip(padding) == plain);
        assert(padded =~= padded.take(padding) + padded.skip(padding));
    }
    assert forall|i: int| 0 <= i < digits.len() implies '0' <= #[trigger] digits[i] <= '9' by {
        if i >= padding {
            assert(padded[i] == plain[i - padding]);
        }
    }
    lemma_zeros_add_nothing(padded.take(padding), plain);
}

proof fn lemma_zeros_add_nothing(zeros: Seq<char>, digits: Seq<char>)
    requires
        forall|i: int| 0 <= i < zeros.len() ==> #[trigger] zeros[i] == '0',
    ensures
        text::decimal_value(zeros + digits) == text::decimal_value(digits),
    decreases digits.len(), zeros.len(),
{
    let whole = zeros + digits;
    if digits.len() > 0 {
        assert(whole.drop_last() =~= zeros + digits.drop_last());
        lemma_zeros_add_nothing(zeros, digits.drop_last());
    } else if zeros.len() > 0 {
        let fewer = zeros.drop_last();
        assert(whole =~= zeros);
        assert(whole.drop_last() =~= fewer + digits);
        assert(zeros[zeros.len() - 1] == '0');
        assert forall|i: int| 0 <= i < fewer.len() implies #[trigger] fewer[i] == '0' by {
            assert(fewer[i] == zeros[i]);
        }
        lemma_zeros_add_nothing(fewer, digits);
    } else {
        assert(whole =~= digits);
    }
}

/// What a run leaves behind carries its name: a log ends in `.jsonl`, a directory of task
/// records has the bare name. A run was seen exactly when it left one of them.
pub proof fn artifacts_carry_the_name(
    logs: Seq<String>,
    task_records: Seq<String>,
    name: Seq<char>,
    n: u64,
)
    ensures
        is_artifact(name, RunArtifactKind::Log, n) <==> n > 0 && name == run_text(n) + seq![
            '.',
            'j',
            's',
            'o',
            'n',
            'l',
        ],
        is_artifact(name, RunArtifactKind::TaskRecordDirectory, n) <==> n > 0 && name == run_text(n),
        n > 0 ==> (is_seen(logs, task_records, n) <==> ({
            ||| exists|i: int|
                0 <= i < logs.len() && (#[trigger] logs[i])@ == run_text(n) + seq![
                    '.',
                    'j',
                    's',
                    'o',
                    'n',
                    'l',
                ]
            ||| exists|i: int|
                0 <= i < task_records.len() && (#[trigger] task_records[i])@ == run_text(n)
        })),
        is_seen(logs, task_records, 0),
{
}

/// A run gets the number behind the largest that any run left behind, so that no log and no
/// directory of task records has its number or a larger one; the first run is number one. A
/// number that is taken is followed by the next, until there are no more.
pub proof fn new_runs_come_last(
    logs: Seq<String>,
    task_records: Seq<String>,
    result: Result<RunReservation, RunSequenceExhausted>,
    after: Result<RunReservation, RunSequenceExhausted>,
    i: int,
    n: u64,
)
    requires
        is_reserved(logs, task_records, result),
        result matches Ok(reservation) ==> reservation.candidate() > 0,
        result matches Ok(reservation) ==> is_next(reservation.candidate(), after),
    ensures
        result matches Ok(reservation) ==> ({
            &&& n >= reservation.candidate() && 0 <= i < logs.len() ==> logs[i]@ != run_text(n) + seq![
                '.',
                'j',
                's',
                'o',
                'n',
                'l',
            ]
            &&& n >= reservation.candidate() && 0 <= i < task_records.len() ==> task_records[i]@
                != run_text(n)
            &&& reservation.candidate() > 1 ==> is_seen(
                logs,
                task_records,
                (reservation.candidate() - 1) as u64,
            )
            &&& after is Ok <==> reservation.candidate() < u64::MAX
            &&& after matches Ok(next) ==> next.candidate() == reservation.candidate() + 1
        }),
        result is Err ==> is_seen(logs, task_records, u64::MAX),
        logs.len() == 0 && task_records.len() == 0 ==> (result matches Ok(reservation)
            && reservation.candidate() == 1),
{
    if let Ok(reservation) = result {
        if n >= reservation.candidate() {
            if 0 <= i < logs.len() {
                artifacts_carry_the_name(logs, task_records, logs[i]@, n);
                assert(!is_artifact(logs[i]@, RunArtifactKind::Log, n));
            }
            if 0 <= i < task_records.len() {
                artifacts_carry_the_name(logs, task_records, task_records[i]@, n);
                assert(!is_artifact(task_records[i]@, RunArtifactKind::TaskRecordDirectory, n));
            }
        }
    }
}

/// Runs that left no directory left nothing. Something else in its place counts as nothing
/// only for task records, and every other failure is none of these.
pub proof fn missing_directories_hold_nothing(
    kind: RunArtifactKind,
    failure: SafeIoKind,
    not_a_directory: bool,
)
    ensures
        failure is NotFound ==> is_nothing(kind, failure, not_a_directory),
        kind is TaskRecordDirectory && not_a_directory ==> is_nothing(kind, failure, not_a_directory),
        !(failure is NotFound) && (kind is Log || !not_a_directory) ==> !is_nothing(
            kind,
            failure,
            not_a_directory,
        ),
{
}

} // verus!
