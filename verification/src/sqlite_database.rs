//! The files of a database: claiming a new one, and cleaning up after a failure.

use vstd::prelude::*;
use vstd::string::*;
use crate::diagnostic::{IoError, SafeIoKind};
use crate::sqlite_error::SqliteRuntimeError;
use crate::sqlite_open::{ExistingFileError, ExistingFileErrorOrRuntime};
use crate::vectors::in_reverse;
use crate::windows::{FileIdentity, WindowsFsError};

verus! {

/// The path of a file that SQLite keeps beside a database.
pub fn sidecar_path(path: &str, suffix: &str) -> (sidecar: String)
    ensures
        sidecar@ == path@ + suffix@,
{
    String::from_str(path).concat(suffix)
}

/// The paths of a database and of the files beside it.
pub open spec fn artifact_paths(path: Seq<char>) -> Seq<Seq<char>> {
    seq![path, path + "-journal"@, path + "-wal"@, path + "-shm"@]
}

/// The texts of a list of paths.
pub open spec fn path_texts(paths: Seq<String>) -> Seq<Seq<char>> {
    Seq::new(paths.len(), |i: int| paths[i]@)
}

pub fn database_artifact_paths(path: &str) -> (paths: Vec<String>)
    ensures
        path_texts(paths@) == artifact_paths(path@),
{
    let mut paths: Vec<String> = Vec::new();
    paths.push(String::from_str(path));
    paths.push(sidecar_path(path, "-journal"));
    paths.push(sidecar_path(path, "-wal"));
    paths.push(sidecar_path(path, "-shm"));
    assert(path_texts(paths@) =~= artifact_paths(path@));
    paths
}

/// A file that was identified, so that it and no other may be deleted.
#[derive(Debug)]
pub struct TrackedDatabaseArtifact {
    pub path: String,
    pub identity: FileIdentity,
    pub is_main: bool,
}

/// A failure of a cleanup, with its path as a text.
pub ghost enum CleanupFailure {
    Io { operation: &'static str, path: Seq<char>, source: IoError },
    FileSystem { operation: &'static str, path: Seq<char>, source: WindowsFsError },
    InvalidTarget { path: Seq<char> },
    Other(SqliteRuntimeError),
}

pub open spec fn cleanup_failure(error: SqliteRuntimeError) -> CleanupFailure {
    match error {
        SqliteRuntimeError::Io { operation, path, source } => CleanupFailure::Io {
            operation,
            path: path@,
            source,
        },
        SqliteRuntimeError::WindowsFileSystem { operation, path, source } =>
        CleanupFailure::FileSystem { operation, path: path@, source },
        SqliteRuntimeError::InvalidTarget { path } => CleanupFailure::InvalidTarget { path: path@ },
        other => CleanupFailure::Other(other),
    }
}

pub open spec fn cleanup_failures(errors: Seq<SqliteRuntimeError>) -> Seq<CleanupFailure> {
    Seq::new(errors.len(), |i: int| cleanup_failure(errors[i]))
}

/// What is known of a cleanup: whether something is left over, whether that is uncertain,
/// and what failed.
#[verifier::ext_equal]
pub ghost struct Assessment {
    pub residual: bool,
    pub unknown: bool,
    pub failures: Seq<CleanupFailure>,
}

/// What one observation adds.
pub ghost struct Finding {
    pub residual: bool,
    pub unknown: bool,
    pub failure: Option<CleanupFailure>,
}

pub open spec fn nothing_found() -> Finding {
    Finding { residual: false, unknown: false, failure: None }
}

impl Assessment {
    pub open spec fn clean() -> Self {
        Assessment { residual: false, unknown: false, failures: Seq::empty() }
    }

    pub open spec fn with(self, finding: Finding) -> Self {
        Assessment {
            residual: self.residual || finding.residual,
            unknown: self.unknown || finding.unknown,
            failures: match finding.failure {
                Some(failure) => self.failures.push(failure),
                None => self.failures,
            },
        }
    }

    /// With several findings, one after another.
    pub open spec fn with_all(self, findings: Seq<Finding>) -> Self
        decreases findings.len(),
    {
        if findings.len() == 0 {
            self
        } else {
            self.with_all(findings.drop_last()).with(findings.last())
        }
    }
}

#[derive(Debug, PartialEq, Eq)]
pub struct CleanupAssessment {
    pub residual: bool,
    pub unknown: bool,
    pub failures: Vec<SqliteRuntimeError>,
}

impl View for CleanupAssessment {
    type V = Assessment;

    open spec fn view(&self) -> Assessment {
        Assessment {
            residual: self.residual,
            unknown: self.unknown,
            failures: cleanup_failures(self.failures@),
        }
    }
}

impl CleanupAssessment {
    pub fn clean() -> (assessment: Self)
        ensures
            assessment@ == Assessment::clean(),
    {
        let assessment = CleanupAssessment { residual: false, unknown: false, failures: Vec::new() };
        assert(cleanup_failures(assessment.failures@) =~= Seq::empty());
        assessment
    }

    fn add(&mut self, residual: bool, unknown: bool, failure: Option<SqliteRuntimeError>)
        ensures
            final(self)@ == old(self)@.with(
                Finding {
                    residual,
                    unknown,
                    failure: match failure {
                        Some(error) => Some(cleanup_failure(error)),
                        None => None,
                    },
                },
            ),
    {
        if residual {
            self.residual = true;
        }
        if unknown {
            self.unknown = true;
        }
        let ghost before = self.failures@;
        if let Some(error) = failure {
            self.failures.push(error);
            assert(cleanup_failures(self.failures@) =~= cleanup_failures(before).push(
                cleanup_failure(error),
            ));
        }
    }
}

/// Whether a file is not there.
pub open spec fn is_absent(error: WindowsFsError) -> bool {
    error matches WindowsFsError::Io { source, .. } && source.kind == SafeIoKind::NotFound
}

pub fn windows_not_found(error: &WindowsFsError) -> (absent: bool)
    ensures
        absent == is_absent(*error),
{
    match error {
        WindowsFsError::Io { source, .. } => source.kind == SafeIoKind::NotFound,
        _ => false,
    }
}

/// What was seen of a file beside a database.
#[derive(Debug)]
pub enum SidecarObservation {
    PinFailed(WindowsFsError),
    MetadataFailed(WindowsFsError),
    NotAFile,
    IdentityFailed(WindowsFsError),
    File(FileIdentity),
}

pub open spec fn sidecar_finding(path: Seq<char>, observation: SidecarObservation) -> Finding {
    match observation {
        SidecarObservation::PinFailed(source) => if is_absent(source) {
            nothing_found()
        } else {
            Finding {
                residual: false,
                unknown: true,
                failure: Some(
                    CleanupFailure::FileSystem {
                        operation: "固定 SQLite 伴生文件物理身份",
                        path,
                        source,
                    },
                ),
            }
        },
        SidecarObservation::MetadataFailed(source) => Finding {
            residual: false,
            unknown: true,
            failure: Some(
                CleanupFailure::FileSystem { operation: "检查 SQLite 伴生文件类型", path, source },
            ),
        },
        SidecarObservation::NotAFile => Finding {
            residual: true,
            unknown: false,
            failure: Some(CleanupFailure::InvalidTarget { path }),
        },
        SidecarObservation::IdentityFailed(source) => Finding {
            residual: false,
            unknown: true,
            failure: Some(
                CleanupFailure::FileSystem {
                    operation: "确认 SQLite 伴生文件物理身份",
                    path,
                    source,
                },
            ),
        },
        SidecarObservation::File(_) => nothing_found(),
    }
}

pub open spec fn sidecar_findings(paths: Seq<Seq<char>>, observed: Seq<SidecarObservation>) -> Seq<
    Finding,
> {
    Seq::new(observed.len(), |i: int| sidecar_finding(paths[i], observed[i]))
}

/// A file to delete, with its path as a text.
pub ghost struct Artifact {
    pub path: Seq<char>,
    pub identity: FileIdentity,
    pub is_main: bool,
}

impl TrackedDatabaseArtifact {
    pub open spec fn shown(self) -> Artifact {
        Artifact { path: self.path@, identity: self.identity, is_main: self.is_main }
    }
}

pub open spec fn shown_artifacts(listed: Seq<TrackedDatabaseArtifact>) -> Seq<Artifact> {
    Seq::new(listed.len(), |i: int| listed[i].shown())
}

/// The files among what was seen, in order.
pub open spec fn found_files(paths: Seq<Seq<char>>, observed: Seq<SidecarObservation>) -> Seq<Artifact>
    decreases observed.len(),
{
    if observed.len() == 0 {
        Seq::empty()
    } else {
        let before = found_files(paths, observed.drop_last());
        match observed.last() {
            SidecarObservation::File(identity) => before.push(
                Artifact { path: paths[observed.len() - 1], identity, is_main: false },
            ),
            _ => before,
        }
    }
}

/// Sorts what was seen of the files beside a database into files to delete and findings.
pub fn observe_sidecar_artifacts(paths: &Vec<String>, observed: Vec<SidecarObservation>) -> (result: (
    Vec<TrackedDatabaseArtifact>,
    CleanupAssessment,
))
    requires
        observed.len() == paths.len(),
    ensures
        shown_artifacts(result.0@) == found_files(path_texts(paths@), observed@),
        result.1@ == Assessment::clean().with_all(sidecar_findings(path_texts(paths@), observed@)),
{
    let ghost all = observed@;
    let ghost texts = path_texts(paths@);
    let ghost findings = sidecar_findings(texts, all);
    let mut waiting = in_reverse(observed);
    let mut listed: Vec<TrackedDatabaseArtifact> = Vec::new();
    let mut assessment = CleanupAssessment::clean();
    let mut at: usize = 0;
    assert(shown_artifacts(listed@) =~= found_files(texts, all.take(0)));
    assert(findings.take(0) =~= Seq::<Finding>::empty());
    while waiting.len() > 0
        invariant
            at + waiting.len() == all.len(),
            all.len() == paths.len(),
            texts == path_texts(paths@),
            findings == sidecar_findings(texts, all),
            forall|k: int|
                0 <= k < waiting.len() ==> (#[trigger] waiting@[k]) == all[all.len() - 1 - k],
            shown_artifacts(listed@) == found_files(texts, all.take(at as int)),
            assessment@ == Assessment::clean().with_all(findings.take(at as int)),
        decreases waiting.len(),
    {
        if let Some(observation) = waiting.pop() {
            let path = paths[at].as_str();
            let ghost before = listed@;
            proof {
                assert(observation == all[at as int]);
                assert(path@ == texts[at as int]);
                assert(all.take(at + 1).drop_last() =~= all.take(at as int));
                assert(all.take(at + 1).last() == all[at as int]);
                assert(findings.take(at + 1).drop_last() =~= findings.take(at as int));
                assert(findings.take(at + 1).last() == findings[at as int]);
            }
            match observation {
                SidecarObservation::PinFailed(source) => {
                    if windows_not_found(&source) {
                        assessment.add(false, false, None);
                    } else {
                        assessment.add(
                            false,
                            true,
                            Some(
                                SqliteRuntimeError::windows_file_system(
                                    "固定 SQLite 伴生文件物理身份",
                                    path,
                                    source,
                                ),
                            ),
                        );
                    }
                },
                SidecarObservation::MetadataFailed(source) => {
                    assessment.add(
                        false,
                        true,
                        Some(
                            SqliteRuntimeError::windows_file_system(
                                "检查 SQLite 伴生文件类型",
                                path,
                                source,
                            ),
                        ),
                    );
                },
                SidecarObservation::NotAFile => {
                    assessment.add(
                        true,
                        false,
                        Some(SqliteRuntimeError::InvalidTarget { path: String::from_str(path) }),
                    );
                },
                SidecarObservation::IdentityFailed(source) => {
                    assessment.add(
                        false,
                        true,
                        Some(
                            SqliteRuntimeError::windows_file_system(
                                "确认 SQLite 伴生文件物理身份",
                                path,
                                source,
                            ),
                        ),
                    );
                },
                SidecarObservation::File(identity) => {
                    assessment.add(false, false, None);
                    listed.push(
                        TrackedDatabaseArtifact {
                            path: String::from_str(path),
                            identity,
                            is_main: false,
                        },
                    );
                    assert(shown_artifacts(listed@) =~= shown_artifacts(before).push(
                        Artifact { path: texts[at as int], identity, is_main: false },
                    ));
                },
            }
            at += 1;
        }
    }
    proof {
        assert(all.take(all.len() as int) =~= all);
        assert(findings.take(all.len() as int) =~= findings);
    }
    (listed, assessment)
}

/// What deleting an identified file adds.
pub open spec fn deletion_finding(artifact: Artifact, deletion: Result<(), WindowsFsError>) -> Finding {
    match deletion {
        Ok(_) => nothing_found(),
        Err(source) => if is_absent(source) && !artifact.is_main {
            nothing_found()
        } else {
            let lost = artifact.is_main && (source is FileIdentityChanged || is_absent(source));
            Finding {
                residual: !lost,
                unknown: lost,
                failure: Some(
                    CleanupFailure::FileSystem {
                        operation: "按已确认的物理身份删除 SQLite 文件",
                        path: artifact.path,
                        source,
                    },
                ),
            }
        },
    }
}

pub open spec fn deletion_findings(
    artifacts: Seq<Artifact>,
    deletions: Seq<Result<(), WindowsFsError>>,
) -> Seq<Finding> {
    Seq::new(deletions.len(), |i: int| deletion_finding(artifacts[i], deletions[i]))
}

/// What looking for a path adds: `Ok` is a path that is there.
pub open spec fn remains_finding(path: Seq<char>, found: Result<(), IoError>) -> Finding {
    match found {
        Ok(_) => Finding { residual: true, unknown: false, failure: None },
        Err(source) => if source.kind == SafeIoKind::NotFound {
            nothing_found()
        } else {
            Finding {
                residual: false,
                unknown: true,
                failure: Some(
                    CleanupFailure::Io { operation: "确认 SQLite 清理目标是否存在", path, source },
                ),
            }
        },
    }
}

pub open spec fn remains_findings(paths: Seq<Seq<char>>, found: Seq<Result<(), IoError>>) -> Seq<Finding> {
    Seq::new(found.len(), |i: int| remains_finding(paths[i], found[i]))
}

fn note_deletion(
    assessment: CleanupAssessment,
    artifact: &TrackedDatabaseArtifact,
    deletion: Result<(), WindowsFsError>,
) -> (result: CleanupAssessment)
    ensures
        result@ == assessment@.with(deletion_finding(artifact.shown(), deletion)),
{
    let mut assessment = assessment;
    match deletion {
        Ok(()) => {
            assessment.add(false, false, None);
        },
        Err(source) => {
            let absent = windows_not_found(&source);
            if absent && !artifact.is_main {
                assessment.add(false, false, None);
            } else {
                let changed = match &source {
                    WindowsFsError::FileIdentityChanged { .. } => true,
                    _ => false,
                };
                let lost = artifact.is_main && (changed || absent);
                assessment.add(
                    !lost,
                    lost,
                    Some(
                        SqliteRuntimeError::windows_file_system(
                            "按已确认的物理身份删除 SQLite 文件",
                            artifact.path.as_str(),
                            source,
                        ),
                    ),
                );
            }
        },
    }
    assessment
}

fn note_remains(assessment: CleanupAssessment, path: &str, found: Result<(), IoError>) -> (result:
    CleanupAssessment)
    ensures
        result@ == assessment@.with(remains_finding(path@, found)),
{
    let mut assessment = assessment;
    match found {
        Ok(()) => {
            assessment.add(true, false, None);
        },
        Err(source) => {
            if source.kind == SafeIoKind::NotFound {
                assessment.add(false, false, None);
            } else {
                assessment.add(
                    false,
                    true,
                    Some(SqliteRuntimeError::io("确认 SQLite 清理目标是否存在", path, source)),
                );
            }
        },
    }
    assessment
}

/// What is known after the identified files were deleted, or not, and the paths were
/// looked for.
pub fn cleanup_database_artifacts(
    paths: &Vec<String>,
    listed: &Vec<TrackedDatabaseArtifact>,
    deletions: Vec<Result<(), WindowsFsError>>,
    found: Vec<Result<(), IoError>>,
    assessment: CleanupAssessment,
) -> (result: CleanupAssessment)
    requires
        deletions.len() == listed.len(),
        found.len() == paths.len(),
    ensures
        result@ == assessment@.with_all(
            deletion_findings(shown_artifacts(listed@), deletions@),
        ).with_all(remains_findings(path_texts(paths@), found@)),
{
    let ghost before = assessment@;
    let ghost artifacts = shown_artifacts(listed@);
    let ghost all_deletions = deletions@;
    let ghost first = deletion_findings(artifacts, all_deletions);
    let mut assessment = assessment;
    let mut waiting = in_reverse(deletions);
    let mut at: usize = 0;
    assert(first.take(0) =~= Seq::<Finding>::empty());
    while waiting.len() > 0
        invariant
            at + waiting.len() == all_deletions.len(),
            all_deletions.len() == listed.len(),
            artifacts == shown_artifacts(listed@),
            first == deletion_findings(artifacts, all_deletions),
            forall|k: int|
                0 <= k < waiting.len() ==> (#[trigger] waiting@[k]) == all_deletions[all_deletions.len()
                    - 1 - k],
            assessment@ == before.with_all(first.take(at as int)),
        decreases waiting.len(),
    {
        if let Some(deletion) = waiting.pop() {
            proof {
                assert(deletion == all_deletions[at as int]);
                assert(first.take(at + 1).drop_last() =~= first.take(at as int));
                assert(first.take(at + 1).last() == first[at as int]);
            }
            assessment = note_deletion(assessment, &listed[at], deletion);
            at += 1;
        }
    }
    assert(first.take(all_deletions.len() as int) =~= first);
    let ghost middle = assessment@;
    let ghost texts = path_texts(paths@);
    let ghost all_found = found@;
    let ghost second = remains_findings(texts, all_found);
    let mut waiting = in_reverse(found);
    let mut at: usize = 0;
    assert(second.take(0) =~= Seq::<Finding>::empty());
    while waiting.len() > 0
        invariant
            at + waiting.len() == all_found.len(),
            all_found.len() == paths.len(),
            texts == path_texts(paths@),
            second == remains_findings(texts, all_found),
            forall|k: int|
                0 <= k < waiting.len() ==> (#[trigger] waiting@[k]) == all_found[all_found.len() - 1 - k],
            assessment@ == middle.with_all(second.take(at as int)),
        decreases waiting.len(),
    {
        if let Some(found) = waiting.pop() {
            proof {
                assert(found == all_found[at as int]);
                assert(texts[at as int] == paths@[at as int]@);
                assert(second.take(at + 1).drop_last() =~= second.take(at as int));
                assert(second.take(at + 1).last() == second[at as int]);
            }
            assessment = note_remains(assessment, paths[at].as_str(), found);
            at += 1;
        }
    }
    assert(second.take(all_found.len() as int) =~= second);
    assessment
}

/// What a failed creation reports: `primary`, and what its cleanup failed with.
pub open spec fn with_cleanup(primary: SqliteRuntimeError, cleanup: CleanupAssessment) -> SqliteRuntimeError {
    if cleanup.failures@.len() == 0 {
        primary
    } else {
        SqliteRuntimeError::Cleanup { primary: Box::new(primary), failures: cleanup.failures }
    }
}

/// What the creation of a database fails with.
#[derive(Debug, PartialEq, Eq)]
pub enum CreateDatabaseError {
    AlreadyExists,
    NotCreated(SqliteRuntimeError),
    ResidualArtifact(SqliteRuntimeError),
    OutcomeUnknown(SqliteRuntimeError),
}

/// What the copy of a database fails with.
#[derive(Debug, PartialEq, Eq)]
pub enum SnapshotDatabaseError {
    SourceNotFound,
    DestinationAlreadyExists,
    NotCreated(SqliteRuntimeError),
    ResidualArtifact(SqliteRuntimeError),
    OutcomeUnknown(SqliteRuntimeError),
}

/// The failure of a creation after its cleanup. What is uncertain counts before what is
/// left over.
pub open spec fn failed_creation(primary: SqliteRuntimeError, cleanup: CleanupAssessment) -> CreateDatabaseError {
    let source = with_cleanup(primary, cleanup);
    if cleanup.unknown {
        CreateDatabaseError::OutcomeUnknown(source)
    } else if cleanup.residual {
        CreateDatabaseError::ResidualArtifact(source)
    } else {
        CreateDatabaseError::NotCreated(source)
    }
}

pub fn creation_failure(primary: SqliteRuntimeError, cleanup: CleanupAssessment) -> (error:
    CreateDatabaseError)
    ensures
        error == failed_creation(primary, cleanup),
{
    let source = if cleanup.failures.len() == 0 {
        primary
    } else {
        SqliteRuntimeError::Cleanup { primary: Box::new(primary), failures: cleanup.failures }
    };
    if cleanup.unknown {
        CreateDatabaseError::OutcomeUnknown(source)
    } else if cleanup.residual {
        CreateDatabaseError::ResidualArtifact(source)
    } else {
        CreateDatabaseError::NotCreated(source)
    }
}

/// The same failure, told of a copy.
pub open spec fn as_snapshot(error: CreateDatabaseError) -> SnapshotDatabaseError {
    match error {
        CreateDatabaseError::AlreadyExists => SnapshotDatabaseError::DestinationAlreadyExists,
        CreateDatabaseError::NotCreated(source) => SnapshotDatabaseError::NotCreated(source),
        CreateDatabaseError::ResidualArtifact(source) => SnapshotDatabaseError::ResidualArtifact(source),
        CreateDatabaseError::OutcomeUnknown(source) => SnapshotDatabaseError::OutcomeUnknown(source),
    }
}

pub fn map_snapshot_error(error: CreateDatabaseError) -> (mapped: SnapshotDatabaseError)
    ensures
        mapped == as_snapshot(error),
{
    match error {
        CreateDatabaseError::AlreadyExists => SnapshotDatabaseError::DestinationAlreadyExists,
        CreateDatabaseError::NotCreated(source) => SnapshotDatabaseError::NotCreated(source),
        CreateDatabaseError::ResidualArtifact(source) => SnapshotDatabaseError::ResidualArtifact(source),
        CreateDatabaseError::OutcomeUnknown(source) => SnapshotDatabaseError::OutcomeUnknown(source),
    }
}

/// The failure of a copy after its cleanup.
pub fn snapshot_failure(primary: SqliteRuntimeError, cleanup: CleanupAssessment) -> (error:
    SnapshotDatabaseError)
    ensures
        error == as_snapshot(failed_creation(primary, cleanup)),
{
    map_snapshot_error(creation_failure(primary, cleanup))
}

/// Whether `mapped` says why the source of a copy could not be opened.
pub open spec fn is_unread_source(
    path: Seq<char>,
    error: ExistingFileErrorOrRuntime,
    mapped: SnapshotDatabaseError,
) -> bool {
    match error {
        ExistingFileErrorOrRuntime::Existing(ExistingFileError::NotFound) => mapped
            == SnapshotDatabaseError::SourceNotFound,
        ExistingFileErrorOrRuntime::Existing(ExistingFileError::InvalidTarget) => mapped matches
            SnapshotDatabaseError::NotCreated(SqliteRuntimeError::InvalidTarget { path: p }) && p@
            == path,
        ExistingFileErrorOrRuntime::Existing(ExistingFileError::Io(source)) => mapped matches
            SnapshotDatabaseError::NotCreated(
            SqliteRuntimeError::Io { operation, path: p, source: s },
        ) && operation == "检查快照源数据库" && p@ == path && s == source,
        ExistingFileErrorOrRuntime::Runtime(source) => mapped
            == SnapshotDatabaseError::NotCreated(source),
    }
}

/// What a copy reports when its source cannot be opened.
pub fn snapshot_source_connection(path: &str, error: ExistingFileErrorOrRuntime) -> (mapped:
    SnapshotDatabaseError)
    ensures
        is_unread_source(path@, error, mapped),
{
    match error {
        ExistingFileErrorOrRuntime::Existing(ExistingFileError::NotFound) =>
        SnapshotDatabaseError::SourceNotFound,
        ExistingFileErrorOrRuntime::Existing(ExistingFileError::InvalidTarget) =>
        SnapshotDatabaseError::NotCreated(
            SqliteRuntimeError::InvalidTarget { path: String::from_str(path) },
        ),
        ExistingFileErrorOrRuntime::Existing(ExistingFileError::Io(source)) =>
        SnapshotDatabaseError::NotCreated(SqliteRuntimeError::io("检查快照源数据库", path, source)),
        ExistingFileErrorOrRuntime::Runtime(source) => SnapshotDatabaseError::NotCreated(source),
    }
}

/// What a new database file is for.
#[derive(Clone, Copy, Debug, PartialEq, Eq, Structural)]
pub enum DatabaseTargetPurpose {
    Create,
    Snapshot,
}

impl DatabaseTargetPurpose {
    pub fn absolute_path_operation(self) -> (text: &'static str)
        ensures
            text == (match self {
                Self::Create => "建立新数据库绝对路径",
                Self::Snapshot => "建立快照目标绝对路径",
            }),
    {
        match self {
            Self::Create => "建立新数据库绝对路径",
            Self::Snapshot => "建立快照目标绝对路径",
        }
    }

    pub fn pin_parent_operation(self) -> (text: &'static str)
        ensures
            text == (match self {
                Self::Create => "固定新数据库父目录",
                Self::Snapshot => "固定快照目标父目录",
            }),
    {
        match self {
            Self::Create => "固定新数据库父目录",
            Self::Snapshot => "固定快照目标父目录",
        }
    }

    pub fn claim_operation(self) -> (text: &'static str)
        ensures
            text == (match self {
                Self::Create => "原子占有并固定新数据库路径",
                Self::Snapshot => "原子占有并固定快照目标路径",
            }),
    {
        match self {
            Self::Create => "原子占有并固定新数据库路径",
            Self::Snapshot => "原子占有并固定快照目标路径",
        }
    }

    pub fn identity_operation(self) -> (text: &'static str)
        ensures
            text == (match self {
                Self::Create => "读取新数据库初始物理身份",
                Self::Snapshot => "读取快照目标初始物理身份",
            }),
    {
        match self {
            Self::Create => "读取新数据库初始物理身份",
            Self::Snapshot => "读取快照目标初始物理身份",
        }
    }

    pub fn held_identity_operation(self) -> (text: &'static str)
        ensures
            text == (match self {
                Self::Create => "复核固定的新数据库物理身份",
                Self::Snapshot => "复核固定的快照目标物理身份",
            }),
    {
        match self {
            Self::Create => "复核固定的新数据库物理身份",
            Self::Snapshot => "复核固定的快照目标物理身份",
        }
    }

    pub fn final_path_operation(self) -> (text: &'static str)
        ensures
            text == (match self {
                Self::Create => "复核新数据库最终路径身份",
                Self::Snapshot => "复核快照目标最终路径身份",
            }),
    {
        match self {
            Self::Create => "复核新数据库最终路径身份",
            Self::Snapshot => "复核快照目标最终路径身份",
        }
    }

    pub fn final_identity_operation(self) -> (text: &'static str)
        ensures
            text == (match self {
                Self::Create => "读取新数据库最终物理身份",
                Self::Snapshot => "读取快照目标最终物理身份",
            }),
    {
        match self {
            Self::Create => "读取新数据库最终物理身份",
            Self::Snapshot => "读取快照目标最终物理身份",
        }
    }

    pub fn identity_changed_message(self) -> (text: &'static str)
        ensures
            text == (match self {
                Self::Create => "新数据库物理身份在初始化期间发生变化",
                Self::Snapshot => "快照目标物理身份在 online backup 期间发生变化",
            }),
    {
        match self {
            Self::Create => "新数据库物理身份在初始化期间发生变化",
            Self::Snapshot => "快照目标物理身份在 online backup 期间发生变化",
        }
    }

    pub fn sidecar_operation(self) -> (text: &'static str)
        ensures
            text == (match self {
                Self::Create => "确认 SQLite 伴生路径初始不存在",
                Self::Snapshot => "确认快照目标伴生路径初始不存在",
            }),
    {
        match self {
            Self::Create => "确认 SQLite 伴生路径初始不存在",
            Self::Snapshot => "确认快照目标伴生路径初始不存在",
        }
    }
}

/// Why a new database file could not be claimed.
#[derive(Debug, PartialEq, Eq)]
pub enum DatabaseTargetClaimError {
    AlreadyExists,
    NotCreated(SqliteRuntimeError),
    OutcomeUnknown(SqliteRuntimeError),
}

/// A new database file that is held, so that its path keeps naming it.
#[derive(Debug)]
pub struct ClaimedDatabaseTarget {
    pub path: String,
    pub identity: FileIdentity,
}

/// How far the claim of a new database file got.
#[derive(Debug)]
pub enum ClaimReply {
    AbsoluteFailed(IoError),
    NoParent { absolute: String },
    NoFileName { absolute: String },
    ParentFailed { parent: String, source: WindowsFsError },
    CreateFailed { path: String, source: WindowsFsError },
    IdentityFailed { path: String, source: WindowsFsError },
    Claimed { path: String, identity: FileIdentity },
}

/// Whether a failure says that the file is there already.
pub open spec fn is_taken(error: WindowsFsError) -> bool {
    error matches WindowsFsError::Io { source, .. } && source.kind == SafeIoKind::AlreadyExists
}

/// Whether `result` is what a claim comes to. Only a file that was created but could not be
/// identified leaves the outcome unknown.
pub open spec fn is_claim(
    requested_path: Seq<char>,
    purpose: DatabaseTargetPurpose,
    reply: ClaimReply,
    result: Result<ClaimedDatabaseTarget, DatabaseTargetClaimError>,
) -> bool {
    match reply {
        ClaimReply::AbsoluteFailed(source) => {
            &&& result matches Err(
                DatabaseTargetClaimError::NotCreated(
                    SqliteRuntimeError::Io { operation, path, source: s },
                ),
            )
            &&& operation == (match purpose {
                DatabaseTargetPurpose::Create => "建立新数据库绝对路径",
                DatabaseTargetPurpose::Snapshot => "建立快照目标绝对路径",
            })
            &&& path@ == requested_path
            &&& s == source
        },
        ClaimReply::NoParent { absolute } => result == Err::<
            ClaimedDatabaseTarget,
            DatabaseTargetClaimError,
        >(
            DatabaseTargetClaimError::NotCreated(
                SqliteRuntimeError::InvalidTarget { path: absolute },
            ),
        ),
        ClaimReply::NoFileName { absolute } => result == Err::<
            ClaimedDatabaseTarget,
            DatabaseTargetClaimError,
        >(
            DatabaseTargetClaimError::NotCreated(
                SqliteRuntimeError::InvalidTarget { path: absolute },
            ),
        ),
        ClaimReply::ParentFailed { parent, source } => result == Err::<
            ClaimedDatabaseTarget,
            DatabaseTargetClaimError,
        >(
            DatabaseTargetClaimError::NotCreated(
                SqliteRuntimeError::WindowsFileSystem {
                    operation: match purpose {
                        DatabaseTargetPurpose::Create => "固定新数据库父目录",
                        DatabaseTargetPurpose::Snapshot => "固定快照目标父目录",
                    },
                    path: parent,
                    source,
                },
            ),
        ),
        ClaimReply::CreateFailed { path, source } => result == Err::<
            ClaimedDatabaseTarget,
            DatabaseTargetClaimError,
        >(
            (if is_taken(source) {
                DatabaseTargetClaimError::AlreadyExists
            } else {
                DatabaseTargetClaimError::NotCreated(
                    SqliteRuntimeError::WindowsFileSystem {
                        operation: match purpose {
                            DatabaseTargetPurpose::Create => "原子占有并固定新数据库路径",
                            DatabaseTargetPurpose::Snapshot => "原子占有并固定快照目标路径",
                        },
                        path,
                        source,
                    },
                )
            }),
        ),
        ClaimReply::IdentityFailed { path, source } => result == Err::<
            ClaimedDatabaseTarget,
            DatabaseTargetClaimError,
        >(
            DatabaseTargetClaimError::OutcomeUnknown(
                SqliteRuntimeError::WindowsFileSystem {
                    operation: match purpose {
                        DatabaseTargetPurpose::Create => "读取新数据库初始物理身份",
                        DatabaseTargetPurpose::Snapshot => "读取快照目标初始物理身份",
                    },
                    path,
                    source,
                },
            ),
        ),
        ClaimReply::Claimed { path, identity } => result == Ok::<
            ClaimedDatabaseTarget,
            DatabaseTargetClaimError,
        >((ClaimedDatabaseTarget { path, identity })),
    }
}

pub fn claim_database_target(
    requested_path: &str,
    purpose: DatabaseTargetPurpose,
    reply: ClaimReply,
) -> (result: Result<ClaimedDatabaseTarget, DatabaseTargetClaimError>)
    ensures
        is_claim(requested_path@, purpose, reply, result),
{
    match reply {
        ClaimReply::AbsoluteFailed(source) => Err(
            DatabaseTargetClaimError::NotCreated(
                SqliteRuntimeError::io(purpose.absolute_path_operation(), requested_path, source),
            ),
        ),
        ClaimReply::NoParent { absolute } => Err(
            DatabaseTargetClaimError::NotCreated(SqliteRuntimeError::InvalidTarget { path: absolute }),
        ),
        ClaimReply::NoFileName { absolute } => Err(
            DatabaseTargetClaimError::NotCreated(SqliteRuntimeError::InvalidTarget { path: absolute }),
        ),
        ClaimReply::ParentFailed { parent, source } => Err(
            DatabaseTargetClaimError::NotCreated(
                SqliteRuntimeError::WindowsFileSystem {
                    operation: purpose.pin_parent_operation(),
                    path: parent,
                    source,
                },
            ),
        ),
        ClaimReply::CreateFailed { path, source } => {
            let taken = match &source {
                WindowsFsError::Io { source, .. } => source.kind == SafeIoKind::AlreadyExists,
                _ => false,
            };
            if taken {
                Err(DatabaseTargetClaimError::AlreadyExists)
            } else {
                Err(
                    DatabaseTargetClaimError::NotCreated(
                        SqliteRuntimeError::WindowsFileSystem {
                            operation: purpose.claim_operation(),
                            path,
                            source,
                        },
                    ),
                )
            }
        },
        ClaimReply::IdentityFailed { path, source } => Err(
            DatabaseTargetClaimError::OutcomeUnknown(
                SqliteRuntimeError::WindowsFileSystem {
                    operation: purpose.identity_operation(),
                    path,
                    source,
                },
            ),
        ),
        ClaimReply::Claimed { path, identity } => Ok(ClaimedDatabaseTarget { path, identity }),
    }
}

/// What the path of a claimed file names in the end.
#[derive(Debug)]
pub enum FinalPathReply {
    PinFailed(WindowsFsError),
    IdentityFailed(WindowsFsError),
    Identity(FileIdentity),
}

/// Whether two identities are of the same file.
pub open spec fn same_file(left: FileIdentity, right: FileIdentity) -> bool {
    left.volume() == right.volume() && left.id() == right.id()
}

/// Whether `result` tells if the held file and the file at the path are still the claimed
/// one.
pub open spec fn is_verified(
    claim: ClaimedDatabaseTarget,
    purpose: DatabaseTargetPurpose,
    held: Result<FileIdentity, WindowsFsError>,
    last: FinalPathReply,
    result: Result<(), SqliteRuntimeError>,
) -> bool {
    let changed = SqliteRuntimeError::Internal(
        match purpose {
            DatabaseTargetPurpose::Create => "新数据库物理身份在初始化期间发生变化",
            DatabaseTargetPurpose::Snapshot => "快照目标物理身份在 online backup 期间发生变化",
        },
    );
    match held {
        Err(source) => is_unverified(
            result,
            match purpose {
                DatabaseTargetPurpose::Create => "复核固定的新数据库物理身份",
                DatabaseTargetPurpose::Snapshot => "复核固定的快照目标物理身份",
            },
            claim.path@,
            source,
        ),
        Ok(identity) => if !same_file(identity, claim.identity) {
            result == Err::<(), SqliteRuntimeError>(changed)
        } else {
            match last {
                FinalPathReply::PinFailed(source) => is_unverified(
                    result,
                    match purpose {
                        DatabaseTargetPurpose::Create => "复核新数据库最终路径身份",
                        DatabaseTargetPurpose::Snapshot => "复核快照目标最终路径身份",
                    },
                    claim.path@,
                    source,
                ),
                FinalPathReply::IdentityFailed(source) => is_unverified(
                    result,
                    match purpose {
                        DatabaseTargetPurpose::Create => "读取新数据库最终物理身份",
                        DatabaseTargetPurpose::Snapshot => "读取快照目标最终物理身份",
                    },
                    claim.path@,
                    source,
                ),
                FinalPathReply::Identity(identity) => if same_file(identity, claim.identity) {
                    result == Ok::<(), SqliteRuntimeError>(())
                } else {
                    result == Err::<(), SqliteRuntimeError>(changed)
                },
            }
        },
    }
}

/// Whether `result` is a failure of the file system at a path.
pub open spec fn is_unverified(
    result: Result<(), SqliteRuntimeError>,
    operation: &'static str,
    path: Seq<char>,
    source: WindowsFsError,
) -> bool {
    &&& result matches Err(SqliteRuntimeError::WindowsFileSystem { operation: o, path: p, source: s })
    &&& o == operation
    &&& p@ == path
    &&& s == source
}

pub fn verify_claimed_database_identity(
    claim: &ClaimedDatabaseTarget,
    purpose: DatabaseTargetPurpose,
    held: Result<FileIdentity, WindowsFsError>,
    last: FinalPathReply,
) -> (result: Result<(), SqliteRuntimeError>)
    ensures
        is_verified(*claim, purpose, held, last, result),
{
    match held {
        Err(source) => {
            return Err(
                SqliteRuntimeError::windows_file_system(
                    purpose.held_identity_operation(),
                    claim.path.as_str(),
                    source,
                ),
            );
        },
        Ok(identity) => {
            if !identity.same_as(&claim.identity) {
                return Err(SqliteRuntimeError::Internal(purpose.identity_changed_message()));
            }
        },
    }
    match last {
        FinalPathReply::PinFailed(source) => Err(
            SqliteRuntimeError::windows_file_system(
                purpose.final_path_operation(),
                claim.path.as_str(),
                source,
            ),
        ),
        FinalPathReply::IdentityFailed(source) => Err(
            SqliteRuntimeError::windows_file_system(
                purpose.final_identity_operation(),
                claim.path.as_str(),
                source,
            ),
        ),
        FinalPathReply::Identity(identity) => {
            if identity.same_as(&claim.identity) {
                Ok(())
            } else {
                Err(SqliteRuntimeError::Internal(purpose.identity_changed_message()))
            }
        },
    }
}

} // verus!
