//! Structured diagnostics: what failed, what state it left behind, and which further
//! failures belong to it.

use vstd::prelude::*;
use vstd::string::*;
use crate::text::characters;

verus! {

/// What a failure leaves behind, from harmless to unknown.
#[derive(Clone, Copy, Debug, PartialEq, Eq, Structural)]
pub enum StateEffect {
    Unchanged,
    ProgressPreserved,
    AppliedFinalizationFailed,
    RecoveryRequired,
    OutcomeUnknown,
}

impl StateEffect {
    /// Position in the order of severity.
    pub open spec fn severity(self) -> int {
        match self {
            Self::Unchanged => 0,
            Self::ProgressPreserved => 1,
            Self::AppliedFinalizationFailed => 2,
            Self::RecoveryRequired => 3,
            Self::OutcomeUnknown => 4,
        }
    }

    /// The more severe of two effects.
    pub open spec fn worse(self, other: Self) -> Self {
        if self.severity() >= other.severity() {
            self
        } else {
            other
        }
    }

    fn rank(self) -> (rank: u8)
        ensures
            rank == self.severity(),
    {
        match self {
            Self::Unchanged => 0,
            Self::ProgressPreserved => 1,
            Self::AppliedFinalizationFailed => 2,
            Self::RecoveryRequired => 3,
            Self::OutcomeUnknown => 4,
        }
    }

    /// The more severe of two effects; a known effect is never weakened.
    pub fn strongest(self, other: Self) -> (effect: Self)
        ensures
            effect == self.worse(other),
    {
        if self.rank() >= other.rank() {
            self
        } else {
            other
        }
    }
}

/// Whether `c` is a control character.
pub open spec fn is_control(c: char) -> bool {
    c as u32 <= 0x1f || 0x7f <= c as u32 <= 0x9f
}

/// `raw` with every run of control characters replaced by one space.
pub open spec fn single_line(raw: Seq<char>) -> Seq<char>
    decreases raw.len(),
{
    if raw.len() == 0 {
        Seq::empty()
    } else {
        let before = single_line(raw.drop_last());
        if !is_control(raw.last()) {
            before.push(raw.last())
        } else if raw.len() > 1 && is_control(raw[raw.len() - 2]) {
            before
        } else {
            before.push(' ')
        }
    }
}

fn single_line_text(raw: &str) -> (text: String)
    ensures
        text@ == single_line(raw@),
{
    let chars = characters(raw);
    let mut text = String::new();
    let mut i: usize = 0;
    let mut after_control = false;
    while i < chars.len()
        invariant
            i <= chars.len(),
            text@ == single_line(chars@.take(i as int)),
            after_control == (i > 0 && is_control(chars[i - 1])),
        decreases chars.len() - i,
    {
        let c = chars[i];
        let code = c as u32;
        let control = code <= 0x1f || (0x7f <= code && code <= 0x9f);
        proof {
            assert(chars@.take(i + 1).drop_last() =~= chars@.take(i as int));
            assert(chars@.take(i + 1).last() == c);
        }
        if !control {
            text.push(c);
        } else if !after_control {
            text.push(' ');
        }
        after_control = control;
        i += 1;
    }
    assert(chars@.take(chars.len() as int) =~= chars@);
    text
}

pub open spec fn verbatim_prefix() -> Seq<char> {
    seq!['\\', '\\', '?', '\\']
}

pub open spec fn verbatim_share_prefix() -> Seq<char> {
    seq!['\\', '\\', '?', '\\', 'U', 'N', 'C', '\\']
}

/// Whether `text` starts with `prefix`.
pub open spec fn begins_with(text: Seq<char>, prefix: Seq<char>) -> bool {
    text.len() >= prefix.len() && text.take(prefix.len() as int) == prefix
}

/// The path as users write it: without the verbatim prefix of Windows.
pub open spec fn public_form(path: Seq<char>) -> Seq<char> {
    if begins_with(path, verbatim_share_prefix()) {
        seq!['\\', '\\'] + path.skip(8)
    } else if begins_with(path, verbatim_prefix()) {
        path.skip(4)
    } else {
        path
    }
}

fn starts_with_chars(chars: &Vec<char>, prefix: &[char]) -> (result: bool)
    ensures
        result == begins_with(chars@, prefix@),
{
    if chars.len() < prefix.len() {
        return false;
    }
    let mut i: usize = 0;
    while i < prefix.len()
        invariant
            i <= prefix.len() <= chars.len(),
            forall|k: int| 0 <= k < i ==> chars[k] == prefix[k],
        decreases prefix.len() - i,
    {
        if chars[i] != prefix[i] {
            assert(chars@.take(prefix.len() as int)[i as int] != prefix@[i as int]);
            return false;
        }
        i += 1;
    }
    assert(chars@.take(prefix.len() as int) =~= prefix@);
    true
}

/// The path as users write it.
pub fn public_path(path: &str) -> (shown: String)
    ensures
        shown@ == public_form(path@),
{
    let chars = characters(path);
    let share: [char; 8] = ['\\', '\\', '?', '\\', 'U', 'N', 'C', '\\'];
    let plain: [char; 4] = ['\\', '\\', '?', '\\'];
    let is_share = starts_with_chars(&chars, &share);
    let is_verbatim = starts_with_chars(&chars, &plain);
    proof {
        assert(share@ =~= verbatim_share_prefix());
        assert(plain@ =~= verbatim_prefix());
    }
    let mut shown = String::new();
    let mut i: usize = 0;
    if is_share {
        shown.push('\\');
        shown.push('\\');
        i = 8;
    } else if is_verbatim {
        i = 4;
    }
    let ghost head = shown@;
    let ghost start = i as int;
    while i < chars.len()
        invariant
            0 <= start <= i <= chars.len(),
            shown@ == head + chars@.subrange(start, i as int),
        decreases chars.len() - i,
    {
        shown.push(chars[i]);
        assert(chars@.subrange(start, i + 1) =~= chars@.subrange(start, i as int).push(chars[i as int]));
        i += 1;
    }
    proof {
        assert(chars@.subrange(start, chars.len() as int) =~= chars@.skip(start));
        if is_share {
            assert(head =~= seq!['\\', '\\']);
        } else {
            assert(head =~= Seq::<char>::empty());
            assert(shown@ =~= chars@.skip(start));
            assert(chars@.skip(0) =~= chars@);
        }
    }
    shown
}

/// Text that stays on one line.
#[derive(Clone, Debug, PartialEq, Eq)]
pub struct SafeText {
    text: String,
}

impl View for SafeText {
    type V = Seq<char>;

    closed spec fn view(&self) -> Seq<char> {
        self.text@
    }
}

impl SafeText {
    pub fn new(raw: &str) -> (text: Self)
        ensures
            text@ == single_line(raw@),
    {
        SafeText { text: single_line_text(raw) }
    }

    pub fn as_str(&self) -> (text: &str)
        ensures
            text@ == self@,
    {
        self.text.as_str()
    }
}

/// A path as it appears in diagnostics: in public form, on one line.
#[derive(Debug, PartialEq, Eq)]
pub struct SafePath {
    text: String,
}

impl View for SafePath {
    type V = Seq<char>;

    closed spec fn view(&self) -> Seq<char> {
        self.text@
    }
}

/// The text of a path in a diagnostic.
pub open spec fn safe_path(path: Seq<char>) -> Seq<char> {
    single_line(public_form(path))
}

impl SafePath {
    pub fn new(path: &str) -> (safe: Self)
        ensures
            safe@ == safe_path(path@),
    {
        let shown = public_path(path);
        SafePath { text: single_line_text(shown.as_str()) }
    }

    pub fn as_str(&self) -> (text: &str)
        ensures
            text@ == self@,
    {
        self.text.as_str()
    }
}

impl Clone for SafePath {
    fn clone(&self) -> (copy: Self)
        ensures
            copy == *self,
    {
        SafePath { text: self.text.clone() }
    }
}

/// The text of an optional path.
pub open spec fn path_text(path: Option<SafePath>) -> Option<Seq<char>> {
    match path {
        Some(path) => Some(path@),
        None => None,
    }
}

pub fn copied_path(path: &Option<SafePath>) -> (copy: Option<SafePath>)
    ensures
        copy == *path,
{
    match path {
        Some(path) => Some(path.clone()),
        None => None,
    }
}

/// A non-empty name.
#[derive(Debug, PartialEq, Eq)]
pub struct SafeIdentifier {
    text: String,
}

/// An identifier was empty.
#[derive(Clone, Copy, Debug, PartialEq, Eq, Structural)]
pub struct EmptyIdentifier;

impl View for SafeIdentifier {
    type V = Seq<char>;

    closed spec fn view(&self) -> Seq<char> {
        self.text@
    }
}

impl SafeIdentifier {
    pub fn new(text: &str) -> (result: Result<Self, EmptyIdentifier>)
        ensures
            match result {
                Ok(identifier) => text@.len() > 0 && identifier@ == text@,
                Err(_) => text@.len() == 0,
            },
    {
        if text.unicode_len() == 0 {
            Err(EmptyIdentifier)
        } else {
            Ok(SafeIdentifier { text: text.to_owned() })
        }
    }

    pub fn as_str(&self) -> (text: &str)
        ensures
            text@ == self@,
    {
        self.text.as_str()
    }
}

impl Clone for SafeIdentifier {
    fn clone(&self) -> (copy: Self)
        ensures
            copy == *self,
    {
        SafeIdentifier { text: self.text.clone() }
    }
}

/// The identifier in `text`, if it is one.
pub open spec fn identifier_in(text: Seq<char>) -> Option<Seq<char>> {
    if text.len() > 0 {
        Some(text)
    } else {
        None
    }
}

pub open spec fn identifier_text(identifier: Option<SafeIdentifier>) -> Option<Seq<char>> {
    match identifier {
        Some(identifier) => Some(identifier@),
        None => None,
    }
}

/// The identifier in `text`; an empty text gives none.
pub fn identifier_of(text: &str) -> (identifier: Option<SafeIdentifier>)
    ensures
        identifier_text(identifier) == identifier_in(text@),
{
    match SafeIdentifier::new(text) {
        Ok(identifier) => Some(identifier),
        Err(_) => None,
    }
}

pub fn copied_identifier(identifier: &Option<SafeIdentifier>) -> (copy: Option<SafeIdentifier>)
    ensures
        copy == *identifier,
{
    match identifier {
        Some(identifier) => Some(identifier.clone()),
        None => None,
    }
}

/// The kinds of input and output failure that diagnostics tell apart.
#[derive(Clone, Copy, Debug, PartialEq, Eq, Structural)]
pub enum SafeIoKind {
    NotFound,
    PermissionDenied,
    AlreadyExists,
    BrokenPipe,
    WouldBlock,
    InvalidInput,
    InvalidData,
    TimedOut,
    WriteZero,
    Interrupted,
    Unsupported,
    UnexpectedEof,
    OutOfMemory,
    Other,
}

impl SafeIoKind {
    pub open spec fn position(self) -> int {
        match self {
            Self::NotFound => 0,
            Self::PermissionDenied => 1,
            Self::AlreadyExists => 2,
            Self::BrokenPipe => 3,
            Self::WouldBlock => 4,
            Self::InvalidInput => 5,
            Self::InvalidData => 6,
            Self::TimedOut => 7,
            Self::WriteZero => 8,
            Self::Interrupted => 9,
            Self::Unsupported => 10,
            Self::UnexpectedEof => 11,
            Self::OutOfMemory => 12,
            Self::Other => 13,
        }
    }

    /// The kind's place in the order of failure kinds.
    pub fn index(self) -> (index: i64)
        ensures
            index == self.position(),
    {
        match self {
            Self::NotFound => 0,
            Self::PermissionDenied => 1,
            Self::AlreadyExists => 2,
            Self::BrokenPipe => 3,
            Self::WouldBlock => 4,
            Self::InvalidInput => 5,
            Self::InvalidData => 6,
            Self::TimedOut => 7,
            Self::WriteZero => 8,
            Self::Interrupted => 9,
            Self::Unsupported => 10,
            Self::UnexpectedEof => 11,
            Self::OutOfMemory => 12,
            Self::Other => 13,
        }
    }
}

/// What a diagnostic keeps of an input or output failure.
#[derive(Clone, Copy, Debug, PartialEq, Eq, Structural)]
pub struct IoFailure {
    pub kind: SafeIoKind,
    pub raw_os_code: Option<i32>,
}

impl IoFailure {
    pub fn from_parts(kind: SafeIoKind, raw_os_code: Option<i32>) -> (failure: Self)
        ensures
            failure.kind == kind,
            failure.raw_os_code == raw_os_code,
    {
        IoFailure { kind, raw_os_code }
    }

    /// The kind and the code of `error`, without its text.
    pub fn from_error(error: &IoError) -> (failure: Self)
        ensures
            failure == error.failure(),
    {
        IoFailure { kind: error.kind, raw_os_code: error.raw_os_code }
    }
}

/// An input or output failure with the text the system gave it.
#[derive(Debug, PartialEq, Eq)]
pub struct IoError {
    pub kind: SafeIoKind,
    pub raw_os_code: Option<i32>,
    pub text: String,
}

impl IoError {
    pub open spec fn failure(&self) -> IoFailure {
        IoFailure { kind: self.kind, raw_os_code: self.raw_os_code }
    }
}

/// How often something failed; a count that no longer fits becomes a lower bound.
#[derive(Clone, Copy, Debug, PartialEq, Eq, Structural)]
pub enum ObservabilityFailureCount {
    Exact { count: u64 },
    AtLeast { minimum: u64 },
}

impl ObservabilityFailureCount {
    pub open spec fn bound(self) -> u64 {
        match self {
            Self::Exact { count } => count,
            Self::AtLeast { minimum } => minimum,
        }
    }

    pub open spec fn next(self) -> Self {
        match self {
            Self::Exact { count } => if count < u64::MAX {
                Self::Exact { count: (count + 1) as u64 }
            } else {
                Self::AtLeast { minimum: count }
            },
            Self::AtLeast { minimum } => Self::AtLeast { minimum },
        }
    }

    /// What was added between `previous` and `self`.
    pub open spec fn since(self, previous: Option<Self>) -> Option<Self> {
        match previous {
            None => if self == (Self::Exact { count: 0 }) {
                None
            } else {
                Some(self)
            },
            Some(before) => match (self, before) {
                (Self::Exact { count }, _) => if count > before.bound() {
                    Some(Self::Exact { count: (count - before.bound()) as u64 })
                } else {
                    None
                },
                (Self::AtLeast { minimum }, Self::Exact { count }) => Some(
                    Self::AtLeast {
                        minimum: if minimum > count {
                            (minimum - count) as u64
                        } else {
                            1
                        },
                    },
                ),
                (Self::AtLeast { minimum }, Self::AtLeast { minimum: earlier }) => if minimum > earlier {
                    Some(Self::AtLeast { minimum: (minimum - earlier) as u64 })
                } else {
                    None
                },
            },
        }
    }

    pub fn exact(count: u64) -> (result: Self)
        ensures
            result == (Self::Exact { count }),
    {
        Self::Exact { count }
    }

    /// One more. A full exact count turns into a lower bound instead of wrapping.
    pub fn increment(self) -> (result: Self)
        ensures
            result == self.next(),
    {
        match self {
            Self::Exact { count } => {
                if count < u64::MAX {
                    Self::Exact { count: count + 1 }
                } else {
                    Self::AtLeast { minimum: count }
                }
            },
            Self::AtLeast { minimum } => Self::AtLeast { minimum },
        }
    }

    pub fn minimum(self) -> (minimum: u64)
        ensures
            minimum == self.bound(),
    {
        match self {
            Self::Exact { count } => count,
            Self::AtLeast { minimum } => minimum,
        }
    }

    /// What was added since `previous`; none when nothing was. The step from a full exact
    /// count to a lower bound is at least one failure.
    pub fn additional_since(self, previous: Option<Self>) -> (added: Option<Self>)
        ensures
            added == self.since(previous),
    {
        match previous {
            None => {
                match self {
                    Self::Exact { count } => {
                        if count == 0 {
                            None
                        } else {
                            Some(self)
                        }
                    },
                    Self::AtLeast { .. } => Some(self),
                }
            },
            Some(before) => {
                let earlier: u64 = before.minimum();
                match self {
                    Self::Exact { count } => {
                        if count > earlier {
                            Some(Self::Exact { count: count - earlier })
                        } else {
                            None
                        }
                    },
                    Self::AtLeast { minimum } => {
                        if minimum > earlier {
                            Some(Self::AtLeast { minimum: minimum - earlier })
                        } else {
                            match before {
                                Self::Exact { .. } => Some(Self::AtLeast { minimum: 1 }),
                                Self::AtLeast { .. } => None,
                            }
                        }
                    },
                }
            },
        }
    }
}

/// How a further failure belongs to a report.
#[derive(Clone, Copy, Debug, PartialEq, Eq, Structural)]
pub enum RelatedFailureRelation {
    Cleanup,
    Rollback,
}

/// The event that an observability failure concerns.
#[derive(Clone, Copy, Debug, PartialEq, Eq, Structural)]
pub enum ObservabilityEventCode {
    RunStarted,
    CancellationRequested,
    PhaseStarted,
    PhaseCompleted,
    PhaseStopped,
    RunPlanResolved,
    RunPlanFinalized,
    TaskStarted,
    TaskFinished,
    TranslationFinished,
    RetrySummary,
    PublicationStarted,
    PublicationFinished,
    LuaPrint,
    RunDiagnostic,
    RunPlanDiagnostic,
    TranslationTaskDiagnostic,
    ExtractDiagnostic,
    WriteBackDiagnostic,
    PublicationDiagnostic,
    TaskRecordDiagnostic,
    ProjectLogDiagnostic,
    ProjectLogDegraded,
    PerformanceCounters,
    RunFinished,
}

/// The phase that an observability failure concerns.
#[derive(Clone, Copy, Debug, PartialEq, Eq, Structural)]
pub enum ObservabilityProjectLogPhase {
    CheckProject,
    ScanSource,
    PrepareCandidate,
    UpdateDatabase,
    Publish,
    Builtin,
    BuiltinDocuments,
    BuiltinWorkUnits,
    BuiltinCommit,
    Rules,
    RulesDocuments,
    RulesMatches,
    RulesCommit,
    Lua,
    Planning,
    ConfirmedTasks,
    ReadAssets,
    PlanRpgMakerWriteBack,
    RewriteDocuments,
    ValidateCandidate,
}

/// The observability component that failed.
#[derive(Clone, Copy, Debug, PartialEq, Eq, Structural)]
pub enum ObservabilityComponent {
    ProjectLog,
}

/// What could not be produced.
#[derive(Clone, Copy, Debug, PartialEq, Eq, Structural)]
pub enum ObservabilityRenderTarget {
    Sequence,
    OccurrenceId,
}

/// Why an event did not reach its destination.
#[derive(Clone, Copy, Debug, PartialEq, Eq, Structural)]
pub enum ObservabilityWriteFailure {
    Io { failure: IoFailure },
    NotPersisted,
}

/// A rule of the project log that its caller broke.
#[derive(Clone, Copy, Debug, PartialEq, Eq, Structural)]
pub enum ObservabilityContractViolation {
    ProducerClosed,
    RuntimeManagedEvent { event: ObservabilityEventCode },
    UnknownDiagnostic { occurrence_id: u64 },
    InvalidTerminalDiagnostic { occurrence_id: u64 },
    InvalidPhaseTransition { phase: ObservabilityProjectLogPhase },
    DuplicateRunPlan,
    InvalidRunPlanTransition,
    RunPlanCommandMismatch,
    InvalidRunPlanTransaction,
    DuplicateTask { ordinal: u64 },
    InvalidTaskTransition { ordinal: u64 },
    InconsistentTaskTotal,
    DuplicateTranslationFinished,
    DuplicatePublication,
    InvalidPublicationTransition,
    UnfinishedTasks,
    TaskSummaryMismatch,
    TaskCountDoesNotFit,
    EngineSummaryMismatch,
    InvalidRetrySummary { attempted: u64, recovered: u64, exhausted: u64 },
    InvalidCancellationCount { confirmed: u64, total: u64 },
    DiagnosticRequiresFailedTranslation,
    PlanningFailureStartedTasks,
    OccurrenceIdExhausted,
    SequenceExhausted,
    AlreadyFinished,
    ActivePhase,
    UnfinalizedRunPlan,
    MissingTranslationFinished,
    MissingPublicationFinished,
    ChannelClosed,
}

/// A failure of the tool's own observability.
#[derive(Debug, PartialEq, Eq)]
pub enum ObservabilityIssue {
    Backpressure {
        component: ObservabilityComponent,
        event: ObservabilityEventCode,
        count: ObservabilityFailureCount,
    },
    Channel {
        component: ObservabilityComponent,
        event: Option<ObservabilityEventCode>,
        count: ObservabilityFailureCount,
    },
    Serialize {
        component: ObservabilityComponent,
        path: Option<SafePath>,
        event: Option<ObservabilityEventCode>,
        count: ObservabilityFailureCount,
    },
    Write {
        component: ObservabilityComponent,
        path: Option<SafePath>,
        event: Option<ObservabilityEventCode>,
        count: ObservabilityFailureCount,
        failure: ObservabilityWriteFailure,
    },
    Flush { component: ObservabilityComponent, path: Option<SafePath>, failure: IoFailure },
    Sync { component: ObservabilityComponent, path: Option<SafePath>, failure: IoFailure },
    Worker { component: ObservabilityComponent, count: ObservabilityFailureCount },
    Render {
        component: ObservabilityComponent,
        target: ObservabilityRenderTarget,
        event: Option<ObservabilityEventCode>,
        count: ObservabilityFailureCount,
    },
    Contract { component: ObservabilityComponent, violation: ObservabilityContractViolation },
    Create { component: ObservabilityComponent, path: SafePath, failure: IoFailure },
    WorkerStart { component: ObservabilityComponent, failure: IoFailure },
    Cleanup { component: ObservabilityComponent, path: SafePath, failure: IoFailure },
}

/// The part of the process that failed.
#[derive(Clone, Copy, Debug, PartialEq, Eq, Structural)]
pub enum RuntimeComponent {
    SqliteExecutor,
}

/// What the process was doing.
#[derive(Clone, Copy, Debug, PartialEq, Eq, Structural)]
pub enum RuntimeOperation {
    StartWorker,
    DetectAvailableParallelism,
    Shutdown,
}

/// A failure of the process itself.
#[derive(Clone, Copy, Debug, PartialEq, Eq, Structural)]
pub enum RuntimeIssue {
    ExecutorClosed { component: RuntimeComponent, operation: RuntimeOperation },
    Io { component: RuntimeComponent, operation: RuntimeOperation, failure: IoFailure },
    Cancelled { component: RuntimeComponent, operation: RuntimeOperation },
    WorkerPanicked { component: RuntimeComponent, operation: RuntimeOperation },
}

/// The stage of a run in which a database failure happened.
#[derive(Clone, Copy, Debug, PartialEq, Eq, Structural)]
pub enum SqliteDiagnosticStage {
    ProcessStartup,
    Project,
    Extract,
    Translate,
    Shutdown,
}

/// What the database was asked to do.
#[derive(Clone, Copy, Debug, PartialEq, Eq, Structural)]
pub enum SqliteOperation {
    Open,
    Query,
    Execute,
    Cleanup,
    Shutdown,
}

/// What is known of the transaction around a failure.
#[derive(Clone, Copy, Debug, PartialEq, Eq, Structural)]
pub enum SqliteTransactionState {
    NotStarted,
    Active,
    RolledBack,
    FinalizationFailed,
    OutcomeUnknown,
}

/// Where a database failure happened.
#[derive(Clone, Copy, Debug, PartialEq, Eq, Structural)]
pub struct SqliteDiagnosticContext {
    pub stage: SqliteDiagnosticStage,
    pub operation: SqliteOperation,
    pub transaction: SqliteTransactionState,
}

impl SqliteDiagnosticContext {
    pub fn new(
        stage: SqliteDiagnosticStage,
        operation: SqliteOperation,
        transaction: SqliteTransactionState,
    ) -> (context: Self)
        ensures
            context == (Self { stage, operation, transaction }),
    {
        SqliteDiagnosticContext { stage, operation, transaction }
    }

    pub fn with_operation(self, operation: SqliteOperation) -> (context: Self)
        ensures
            context == (Self { operation, ..self }),
    {
        SqliteDiagnosticContext { stage: self.stage, operation, transaction: self.transaction }
    }
}

/// The closed set of driver failures.
#[derive(Clone, Copy, Debug, PartialEq, Eq, Structural)]
pub enum SqliteDriverKind {
    SqliteFailure,
    SingleThreadedMode,
    ColumnConversion,
    IntegralOutOfRange,
    InvalidUtf8,
    EmbeddedNul,
    InvalidParameterName,
    InvalidPath,
    ExecuteReturnedRows,
    NoRows,
    MultipleRows,
    InvalidColumnIndex,
    InvalidColumnName,
    InvalidColumnType,
    UnexpectedChangedRows,
    ParameterConversion,
    InvalidQuery,
    CallbackPanicked,
    MultipleStatements,
    InvalidParameterCount,
    SqlInput,
    InvalidDatabaseIndex,
    RusqliteNonSqliteFailure,
}

/// What a diagnostic keeps of a driver failure: codes and positions, never SQL or values.
#[derive(Debug, PartialEq, Eq)]
pub struct SqliteDriverFailure {
    pub kind: SqliteDriverKind,
    pub primary_code: Option<i32>,
    pub extended_code: Option<i32>,
    pub column_index: Option<usize>,
    pub column_name: Option<SafeIdentifier>,
    pub parameter_actual: Option<usize>,
    pub parameter_expected: Option<usize>,
    pub changed_rows: Option<usize>,
    pub sql_offset: Option<i32>,
    pub database_index: Option<usize>,
}

/// What went wrong with a database.
#[derive(Debug, PartialEq, Eq)]
pub enum SqliteProblem {
    ExecutorClosed { database: SafePath },
    Io { database: SafePath, failure: IoFailure },
    Cancelled { database: SafePath },
    InteractiveSessionAlreadyOpen { database: SafePath },
    WorkerStart { database: SafePath, failure: IoFailure },
    WorkerPanicked { database: SafePath },
    InvalidTarget { database: SafePath },
    UnexpectedArtifact { database: SafePath },
    InvalidValue { database: SafePath },
    InternalInvariant { database: SafePath },
    BackupIncomplete { database: SafePath },
    Driver {
        database: SafePath,
        query_id: Option<SafeIdentifier>,
        query_ordinal: Option<usize>,
        failure: SqliteDriverFailure,
    },
    RootInteractiveSessionAlreadyOpen,
    RootDriver {
        query_id: Option<SafeIdentifier>,
        query_ordinal: Option<usize>,
        failure: SqliteDriverFailure,
    },
    RootInvalidValue,
    RootInternalInvariant,
    RootBackupIncomplete,
}

/// A database failure in its context.
#[derive(Debug, PartialEq, Eq)]
pub struct SqliteIssue {
    pub context: SqliteDiagnosticContext,
    pub problem: SqliteProblem,
}

/// The step of a directory publication.
#[derive(Clone, Copy, Debug, PartialEq, Eq, Structural)]
pub enum PublicationStep {
    Recover,
    PrepareCandidate,
    Publish,
    Finalize,
    DiscardCandidate,
    CleanupResidual,
}

/// The backend failure behind a publication failure.
#[derive(Debug, PartialEq, Eq)]
pub struct PublicationBackendCause {
    diagnostic: Box<Diagnostic>,
}

impl PublicationBackendCause {
    pub closed spec fn cause(&self) -> Diagnostic {
        *self.diagnostic
    }

    pub fn new(diagnostic: Diagnostic) -> (cause: Self)
        ensures
            cause.cause() == diagnostic,
    {
        PublicationBackendCause { diagnostic: Box::new(diagnostic) }
    }

    pub fn into_diagnostic(self) -> (diagnostic: Diagnostic)
        ensures
            diagnostic == self.cause(),
    {
        *self.diagnostic
    }
}

/// What went wrong with a publication.
#[derive(Debug, PartialEq, Eq)]
pub enum PublicationProblem {
    PrepareFailed {
        output_root: SafePath,
        candidate_root: Option<SafePath>,
        cause: PublicationBackendCause,
    },
    RecoveryFailed { output_root: SafePath, cause: PublicationBackendCause },
    CleanupFailed { residual_path: SafePath, cause: PublicationBackendCause },
    DiscardFailed { candidate_root: SafePath, cause: PublicationBackendCause },
    TargetAlreadyExists { output_root: SafePath },
    TargetMissing { output_root: SafePath },
    TargetNotDirectory { output_root: SafePath },
    NotAttempted { output_root: SafePath, cause: PublicationBackendCause },
    NotPublished { output_root: SafePath, cause: PublicationBackendCause },
    PublishedFinalizationFailed {
        output_root: SafePath,
        residual_path: SafePath,
        cause: PublicationBackendCause,
    },
    RecoveryRequired {
        output_root: SafePath,
        recovery_artifacts: Vec<SafePath>,
        cause: PublicationBackendCause,
    },
    OutcomeUnknown {
        output_root: SafePath,
        recovery_artifacts: Vec<SafePath>,
        cause: PublicationBackendCause,
    },
}

/// A publication failure at its step.
#[derive(Debug, PartialEq, Eq)]
pub struct PublicationIssue {
    pub step: PublicationStep,
    pub problem: PublicationProblem,
}

/// What the file system was asked to do.
#[derive(Clone, Copy, Debug, PartialEq, Eq, Structural)]
pub enum FileSystemOperation {
    RecoverTarget,
    PrepareCandidate,
    Rename,
    Remove,
}

/// What went wrong with the file system.
#[derive(Clone, Copy, Debug, PartialEq, Eq, Structural)]
pub enum FileSystemProblem {
    ExecutorClosed,
    Io { failure: IoFailure },
}

/// A file system failure during publication.
#[derive(Clone, Copy, Debug, PartialEq, Eq, Structural)]
pub struct FileSystemIssue {
    pub operation: FileSystemOperation,
    pub problem: FileSystemProblem,
}

/// One problem.
#[derive(Debug, PartialEq, Eq)]
pub enum Diagnostic {
    Observability(ObservabilityIssue),
    Runtime(RuntimeIssue),
    Sqlite(SqliteIssue),
    Publication(PublicationIssue),
    FileSystem(FileSystemIssue),
}

/// A further failure and how it belongs to the report that holds it.
#[derive(Debug, PartialEq, Eq)]
pub struct RelatedFailure {
    pub relation: RelatedFailureRelation,
    pub report: DiagnosticReport,
}

/// A problem, the state it left behind and the failures that followed from it.
#[derive(Debug, PartialEq, Eq)]
pub struct DiagnosticReport {
    pub effect: StateEffect,
    pub primary: Diagnostic,
    pub related: Vec<RelatedFailure>,
}

impl DiagnosticReport {
    /// A report of one problem without further failures.
    pub open spec fn is_single(&self, effect: StateEffect, primary: Diagnostic) -> bool {
        self.effect == effect && self.primary == primary && self.related@.len() == 0
    }

    pub fn new(effect: StateEffect, primary: Diagnostic) -> (report: Self)
        ensures
            report.is_single(effect, primary),
    {
        DiagnosticReport { effect, primary, related: Vec::new() }
    }

    pub fn effect(&self) -> (effect: StateEffect)
        ensures
            effect == self.effect,
    {
        self.effect
    }

    pub fn with_effect(self, effect: StateEffect) -> (report: Self)
        ensures
            report.effect == effect,
            report.primary == self.primary,
            report.related == self.related,
    {
        DiagnosticReport { effect, primary: self.primary, related: self.related }
    }

    /// Adds a further failure. The report is at least as severe as that failure.
    pub fn with_related(self, relation: RelatedFailureRelation, report: DiagnosticReport) -> (result:
        Self)
        ensures
            result.effect == self.effect.worse(report.effect),
            result.primary == self.primary,
            result.related@ == self.related@.push(RelatedFailure { relation, report }),
    {
        let effect = self.effect.strongest(report.effect);
        let mut related = self.related;
        related.push(RelatedFailure { relation, report });
        DiagnosticReport { effect, primary: self.primary, related }
    }
}

} // verus!
