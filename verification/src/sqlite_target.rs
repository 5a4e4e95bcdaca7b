//! The life of a new database file: claimed, filled, and verified or cleaned up.

use vstd::pervasive::unreached;
use vstd::prelude::*;
use vstd::string::*;
use crate::diagnostic::{IoError, SafeIoKind};
use crate::search;
use crate::sqlite_database;
use crate::sqlite_database::{
    claim_database_target, cleanup_database_artifacts, creation_failure, database_artifact_paths,
    observe_sidecar_artifacts, sidecar_path, verify_claimed_database_identity, Artifact, Assessment,
    ClaimReply, ClaimedDatabaseTarget, CleanupAssessment, CreateDatabaseError,
    DatabaseTargetClaimError, DatabaseTargetPurpose, FinalPathReply, SidecarObservation,
    TrackedDatabaseArtifact,
};
use crate::sqlite_error::SqliteRuntimeError;
use crate::vectors::in_reverse;
use crate::windows::{FileIdentity, WindowsFsError};

verus! {

/// The paths of the files beside a database.
pub open spec fn sidecar_texts(path: Seq<char>) -> Seq<Seq<char>> {
    seq![path + "-journal"@, path + "-wal"@, path + "-shm"@]
}

fn sidecar_paths(path: &str) -> (paths: Vec<String>)
    ensures
        sqlite_database::path_texts(paths@) == sidecar_texts(path@),
        paths.len() == 3,
{
    let mut paths: Vec<String> = Vec::new();
    paths.push(sidecar_path(path, "-journal"));
    paths.push(sidecar_path(path, "-wal"));
    paths.push(sidecar_path(path, "-shm"));
    assert(sqlite_database::path_texts(paths@) =~= sidecar_texts(path@));
    paths
}

/// Where a new database file stands.
#[derive(Debug)]
pub enum TargetState {
    Claiming,
    /// Nothing may be beside the new file yet.
    CheckingSidecars { claim: ClaimedDatabaseTarget },
    Working { claim: ClaimedDatabaseTarget },
    Observing { claim: ClaimedDatabaseTarget, primary: SqliteRuntimeError },
    Removing {
        claim: ClaimedDatabaseTarget,
        primary: SqliteRuntimeError,
        listed: Vec<TrackedDatabaseArtifact>,
        assessment: CleanupAssessment,
    },
    Verifying { claim: ClaimedDatabaseTarget },
    Finished { result: Result<(), CreateDatabaseError> },
}

/// What to do with the new database file.
#[derive(Debug)]
pub enum TargetRequest<'a> {
    Claim { path: &'a str },
    /// Say of each path whether something is there.
    LookFor { paths: Vec<String> },
    /// Open the new database and fill it.
    Work { path: &'a str },
    /// Identify what is at each path.
    Observe { paths: Vec<String> },
    /// Let go of the claimed file, delete each listed file if it is still the identified
    /// one, and then say of each path whether something is there.
    Remove { listed: &'a Vec<TrackedDatabaseArtifact>, paths: Vec<String> },
    /// Identify the held file and the file at the path.
    Verify { claim: &'a ClaimedDatabaseTarget },
    Nothing,
}

#[derive(Debug)]
pub enum TargetReply {
    Claimed(ClaimReply),
    /// `Ok` is a path that is there.
    Looked(Vec<Result<(), IoError>>),
    Worked(Result<(), SqliteRuntimeError>),
    Observed(Vec<SidecarObservation>),
    Removed { deletions: Vec<Result<(), WindowsFsError>>, found: Vec<Result<(), IoError>> },
    Verified { held: Result<FileIdentity, WindowsFsError>, last: FinalPathReply },
}

/// The claimed file as one to delete.
pub open spec fn main_artifact(claim: ClaimedDatabaseTarget) -> Artifact {
    Artifact { path: claim.path@, identity: claim.identity, is_main: true }
}

/// The paths where something is, or may be, that should not.
pub open spec fn unexpected(found: Seq<Result<(), IoError>>) -> spec_fn(int) -> bool {
    |i: int|
        match found[i] {
            Ok(_) => true,
            Err(source) => source.kind != SafeIoKind::NotFound,
        }
}

/// What the first unexpected path of those beside the new file means.
pub open spec fn is_unexpected(
    purpose: DatabaseTargetPurpose,
    path: Seq<char>,
    found: Result<(), IoError>,
    primary: SqliteRuntimeError,
    assessment: Assessment,
) -> bool {
    match found {
        Ok(_) => {
            &&& primary matches SqliteRuntimeError::UnexpectedArtifact { path: p }
            &&& p@ == path
            &&& assessment == (Assessment { residual: true, unknown: false, failures: Seq::empty() })
        },
        Err(source) => {
            &&& primary matches SqliteRuntimeError::Io { operation, path: p, source: s }
            &&& operation == (match purpose {
                DatabaseTargetPurpose::Create => "确认 SQLite 伴生路径初始不存在",
                DatabaseTargetPurpose::Snapshot => "确认快照目标伴生路径初始不存在",
            })
            &&& p@ == path
            &&& s == source
            &&& assessment == (Assessment { residual: false, unknown: true, failures: Seq::empty() })
        },
    }
}

impl TargetState {
    pub open spec fn expects(self, reply: TargetReply) -> bool {
        match self {
            TargetState::Claiming => reply is Claimed,
            TargetState::CheckingSidecars { .. } => reply matches TargetReply::Looked(found)
                && found@.len() == 3,
            TargetState::Working { .. } => reply is Worked,
            TargetState::Observing { .. } => reply matches TargetReply::Observed(observed)
                && observed@.len() == 3,
            TargetState::Removing { listed, .. } => {
                &&& reply matches TargetReply::Removed { deletions, found }
                &&& deletions@.len() == listed@.len()
                &&& found@.len() == 4
            },
            TargetState::Verifying { .. } => reply is Verified,
            TargetState::Finished { .. } => false,
        }
    }

    /// Whether `next` comes after this state when the system gave `reply`.
    pub open spec fn leads_to(
        self,
        requested: Seq<char>,
        purpose: DatabaseTargetPurpose,
        reply: TargetReply,
        next: TargetState,
    ) -> bool {
        match (self, reply) {
            (TargetState::Claiming, TargetReply::Claimed(reply)) => match next {
                TargetState::CheckingSidecars { claim } => sqlite_database::is_claim(
                    requested,
                    purpose,
                    reply,
                    Ok(claim),
                ),
                TargetState::Finished { result: Err(CreateDatabaseError::AlreadyExists) } =>
                sqlite_database::is_claim(
                    requested,
                    purpose,
                    reply,
                    Err(DatabaseTargetClaimError::AlreadyExists),
                ),
                TargetState::Finished { result: Err(CreateDatabaseError::NotCreated(source)) } =>
                sqlite_database::is_claim(
                    requested,
                    purpose,
                    reply,
                    Err(DatabaseTargetClaimError::NotCreated(source)),
                ),
                TargetState::Finished { result: Err(CreateDatabaseError::OutcomeUnknown(source)) } =>
                sqlite_database::is_claim(
                    requested,
                    purpose,
                    reply,
                    Err(DatabaseTargetClaimError::OutcomeUnknown(source)),
                ),
                _ => false,
            },
            (TargetState::CheckingSidecars { claim }, TargetReply::Looked(found)) => {
                match search::first_such(unexpected(found@), 0, found@.len() as int) {
                    None => next == (TargetState::Working { claim }),
                    Some(i) => {
                        &&& next matches TargetState::Removing { claim: c, primary, listed, assessment }
                        &&& c == claim
                        &&& sqlite_database::shown_artifacts(listed@) == seq![main_artifact(claim)]
                        &&& is_unexpected(
                            purpose,
                            sidecar_texts(claim.path@)[i],
                            found@[i],
                            primary,
                            assessment@,
                        )
                    },
                }
            },
            (TargetState::Working { claim }, TargetReply::Worked(Ok(_))) => next == (
            TargetState::Verifying { claim }),
            (TargetState::Working { claim }, TargetReply::Worked(Err(primary))) => next == (
            TargetState::Observing { claim, primary }),
            (TargetState::Observing { claim, primary }, TargetReply::Observed(observed)) => {
                &&& next matches TargetState::Removing { claim: c, primary: p, listed, assessment }
                &&& c == claim
                &&& p == primary
                &&& sqlite_database::shown_artifacts(listed@) == seq![main_artifact(claim)]
                    + sqlite_database::found_files(sidecar_texts(claim.path@), observed@)
                &&& assessment@ == Assessment::clean().with_all(
                    sqlite_database::sidecar_findings(sidecar_texts(claim.path@), observed@),
                )
            },
            (
                TargetState::Removing { claim, primary, listed, assessment },
                TargetReply::Removed { deletions, found },
            ) => {
                &&& next matches TargetState::Finished { result: Err(error) }
                &&& exists|cleanup: CleanupAssessment|
                    {
                        &&& error == #[trigger] sqlite_database::failed_creation(primary, cleanup)
                        &&& cleanup@ == assessment@.with_all(
                            sqlite_database::deletion_findings(
                                sqlite_database::shown_artifacts(listed@),
                                deletions@,
                            ),
                        ).with_all(
                            sqlite_database::remains_findings(
                                sqlite_database::artifact_paths(claim.path@),
                                found@,
                            ),
                        )
                    }
            },
            (TargetState::Verifying { claim }, TargetReply::Verified { held, last }) => match next {
                TargetState::Finished { result: Ok(_) } => sqlite_database::is_verified(
                    claim,
                    purpose,
                    held,
                    last,
                    Ok(()),
                ),
                TargetState::Finished { result: Err(CreateDatabaseError::OutcomeUnknown(source)) } =>
                sqlite_database::is_verified(claim, purpose, held, last, Err(source)),
                _ => false,
            },
            _ => false,
        }
    }
}

/// A new database file on its way.
#[derive(Debug)]
pub struct DatabaseTargetRun {
    requested: String,
    purpose: DatabaseTargetPurpose,
    state: TargetState,
}

fn main_of(claim: &ClaimedDatabaseTarget) -> (artifact: TrackedDatabaseArtifact)
    ensures
        artifact.shown() == main_artifact(*claim),
{
    TrackedDatabaseArtifact {
        path: String::from_str(claim.path.as_str()),
        identity: claim.identity,
        is_main: true,
    }
}

fn check_sidecars(
    claim: ClaimedDatabaseTarget,
    purpose: DatabaseTargetPurpose,
    found: Vec<Result<(), IoError>>,
) -> (next: TargetState)
    requires
        found@.len() == 3,
    ensures
        (TargetState::CheckingSidecars { claim }).leads_to(
            Seq::empty(),
            purpose,
            TargetReply::Looked(found),
            next,
        ),
{
    let sidecars = sidecar_paths(claim.path.as_str());
    let ghost all = found@;
    let ghost bad = unexpected(all);
    let mut waiting = in_reverse(found);
    let mut at: usize = 0;
    while waiting.len() > 0
        invariant
            all == found@,
            at + waiting.len() == all.len(),
            all.len() == 3,
            sidecars.len() == 3,
            sqlite_database::path_texts(sidecars@) == sidecar_texts(claim.path@),
            bad == unexpected(all),
            forall|k: int|
                0 <= k < waiting.len() ==> (#[trigger] waiting@[k]) == all[all.len() - 1 - k],
            forall|k: int| 0 <= k < at ==> !#[trigger] bad(k),
        decreases waiting.len(),
    {
        if let Some(one) = waiting.pop() {
            assert(one == all[at as int]);
            let sidecar = sidecars[at].as_str();
            assert(sidecar@ == sqlite_database::path_texts(sidecars@)[at as int]);
            let problem = match one {
                Ok(()) => Some(
                    (
                        SqliteRuntimeError::UnexpectedArtifact { path: String::from_str(sidecar) },
                        true,
                    ),
                ),
                Err(source) => {
                    if source.kind == SafeIoKind::NotFound {
                        None
                    } else {
                        Some(
                            (
                                SqliteRuntimeError::io(purpose.sidecar_operation(), sidecar, source),
                                false,
                            ),
                        )
                    }
                },
            };
            if let Some((primary, residual)) = problem {
                proof {
                    assert(bad(at as int));
                    search::lemma_first_found(bad, 0, all.len() as int, at as int);
                }
                let mut listed: Vec<TrackedDatabaseArtifact> = Vec::new();
                listed.push(main_of(&claim));
                let assessment = CleanupAssessment {
                    residual,
                    unknown: !residual,
                    failures: Vec::new(),
                };
                proof {
                    assert(sqlite_database::shown_artifacts(listed@) =~= seq![main_artifact(claim)]);
                    assert(sqlite_database::cleanup_failures(assessment.failures@) =~= Seq::empty());
                }
                return TargetState::Removing { claim, primary, listed, assessment };
            }
            assert(!bad(at as int));
            at += 1;
        }
    }
    proof {
        search::lemma_first_absent(bad, 0, all.len() as int);
    }
    TargetState::Working { claim }
}

fn list_for_removal(claim: ClaimedDatabaseTarget, primary: SqliteRuntimeError, observed: Vec<SidecarObservation>) -> (next:
    TargetState)
    requires
        observed@.len() == 3,
    ensures
        (TargetState::Observing { claim, primary }).leads_to(
            Seq::empty(),
            DatabaseTargetPurpose::Create,
            TargetReply::Observed(observed),
            next,
        ),
{
    let sidecars = sidecar_paths(claim.path.as_str());
    let (files, assessment) = observe_sidecar_artifacts(&sidecars, observed);
    let ghost beside = files@;
    let mut files = files;
    let mut listed: Vec<TrackedDatabaseArtifact> = Vec::new();
    listed.push(main_of(&claim));
    listed.append(&mut files);
    proof {
        assert(sqlite_database::shown_artifacts(listed@) =~= seq![main_artifact(claim)]
            + sqlite_database::shown_artifacts(beside));
    }
    TargetState::Removing { claim, primary, listed, assessment }
}

/// Whether `request` is what the work on a new database asks for.
pub open spec fn is_request(state: TargetState, requested: Seq<char>, request: TargetRequest<'_>) -> bool {
    match state {
        TargetState::Claiming => request matches TargetRequest::Claim { path } && path@ == requested,
        TargetState::CheckingSidecars { claim } => request matches TargetRequest::LookFor { paths }
            && sqlite_database::path_texts(paths@) == sidecar_texts(claim.path@),
        TargetState::Working { claim } => request matches TargetRequest::Work { path } && path@
            == claim.path@,
        TargetState::Observing { claim, .. } => request matches TargetRequest::Observe { paths }
            && sqlite_database::path_texts(paths@) == sidecar_texts(claim.path@),
        TargetState::Removing { claim, listed, .. } => {
            &&& request matches TargetRequest::Remove { listed: l, paths }
            &&& *l == listed
            &&& sqlite_database::path_texts(paths@) == sqlite_database::artifact_paths(claim.path@)
        },
        TargetState::Verifying { claim } => request matches TargetRequest::Verify { claim: c } && *c
            == claim,
        TargetState::Finished { .. } => request is Nothing,
    }
}

impl DatabaseTargetRun {
    pub closed spec fn path(&self) -> Seq<char> {
        self.requested@
    }

    pub closed spec fn aim(&self) -> DatabaseTargetPurpose {
        self.purpose
    }

    pub closed spec fn at(&self) -> TargetState {
        self.state
    }

    pub fn new(requested: String, purpose: DatabaseTargetPurpose) -> (run: Self)
        ensures
            run.path() == requested@,
            run.aim() == purpose,
            run.at() == TargetState::Claiming,
    {
        DatabaseTargetRun { requested, purpose, state: TargetState::Claiming }
    }

    /// What to do now.
    pub fn request(&self) -> (request: TargetRequest<'_>)
        ensures
            is_request(self.at(), self.path(), request),
    {
        match &self.state {
            TargetState::Claiming => TargetRequest::Claim { path: self.requested.as_str() },
            TargetState::CheckingSidecars { claim } => TargetRequest::LookFor {
                paths: sidecar_paths(claim.path.as_str()),
            },
            TargetState::Working { claim } => TargetRequest::Work { path: claim.path.as_str() },
            TargetState::Observing { claim, .. } => TargetRequest::Observe {
                paths: sidecar_paths(claim.path.as_str()),
            },
            TargetState::Removing { claim, listed, .. } => TargetRequest::Remove {
                listed,
                paths: database_artifact_paths(claim.path.as_str()),
            },
            TargetState::Verifying { claim } => TargetRequest::Verify { claim },
            TargetState::Finished { .. } => TargetRequest::Nothing,
        }
    }

    /// Goes on with what the system answered.
    pub fn advance(self, reply: TargetReply) -> (next: Self)
        requires
            self.at().expects(reply),
        ensures
            next.path() == self.path(),
            next.aim() == self.aim(),
            self.at().leads_to(self.path(), self.aim(), reply, next.at()),
    {
        let purpose = self.purpose;
        let requested = self.requested;
        let state = match (self.state, reply) {
            (TargetState::Claiming, TargetReply::Claimed(reply)) => match claim_database_target(
                requested.as_str(),
                purpose,
                reply,
            ) {
                Ok(claim) => TargetState::CheckingSidecars { claim },
                Err(DatabaseTargetClaimError::AlreadyExists) => TargetState::Finished {
                    result: Err(CreateDatabaseError::AlreadyExists),
                },
                Err(DatabaseTargetClaimError::NotCreated(source)) => TargetState::Finished {
                    result: Err(CreateDatabaseError::NotCreated(source)),
                },
                Err(DatabaseTargetClaimError::OutcomeUnknown(source)) => TargetState::Finished {
                    result: Err(CreateDatabaseError::OutcomeUnknown(source)),
                },
            },
            (TargetState::CheckingSidecars { claim }, TargetReply::Looked(found)) => check_sidecars(
                claim,
                purpose,
                found,
            ),
            (TargetState::Working { claim }, TargetReply::Worked(result)) => match result {
                Ok(()) => TargetState::Verifying { claim },
                Err(primary) => TargetState::Observing { claim, primary },
            },
            (TargetState::Observing { claim, primary }, TargetReply::Observed(observed)) =>
            list_for_removal(claim, primary, observed),
            (
                TargetState::Removing { claim, primary, listed, assessment },
                TargetReply::Removed { deletions, found },
            ) => {
                let paths = database_artifact_paths(claim.path.as_str());
                assert(sqlite_database::path_texts(paths@).len() == 4);
                let cleanup = cleanup_database_artifacts(
                    &paths,
                    &listed,
                    deletions,
                    found,
                    assessment,
                );
                TargetState::Finished { result: Err(creation_failure(primary, cleanup)) }
            },
            (TargetState::Verifying { claim }, TargetReply::Verified { held, last }) =>
            match verify_claimed_database_identity(&claim, purpose, held, last) {
                Ok(()) => TargetState::Finished { result: Ok(()) },
                Err(source) => TargetState::Finished {
                    result: Err(CreateDatabaseError::OutcomeUnknown(source)),
                },
            },
            _ => unreached(),
        };
        DatabaseTargetRun { requested, purpose, state }
    }

    pub fn into_result(self) -> (result: Result<(), CreateDatabaseError>)
        requires
            self.at() is Finished,
        ensures
            self.at() == (TargetState::Finished { result }),
    {
        match self.state {
            TargetState::Finished { result } => result,
            _ => unreached(),
        }
    }
}

/// A file that was claimed is either verified in the end or cleaned up; and a new database
/// counts as made only when the held file and the one at its path are both the claimed one.
pub proof fn claimed_files_are_verified_or_cleaned_up(
    state: TargetState,
    requested: Seq<char>,
    purpose: DatabaseTargetPurpose,
    reply: TargetReply,
    next: TargetState,
)
    requires
        state.expects(reply),
        state.leads_to(requested, purpose, reply, next),
        next is Finished,
    ensures
        state is Claiming || state is Removing || state is Verifying,
        next matches TargetState::Finished { result: Ok(_) } ==> {
            &&& state matches TargetState::Verifying { claim }
            &&& reply matches TargetReply::Verified {
                held: Ok(held),
                last: FinalPathReply::Identity(last),
            }
            &&& sqlite_database::same_file(held, claim.identity)
            &&& sqlite_database::same_file(last, claim.identity)
        },
{
}

/// Only files of the new database are deleted: each listed file is the claimed one itself,
/// or was found at one of the paths beside it.
pub proof fn only_own_files_are_deleted(
    state: TargetState,
    requested: Seq<char>,
    purpose: DatabaseTargetPurpose,
    reply: TargetReply,
    next: TargetState,
    i: int,
)
    requires
        state.expects(reply),
        state.leads_to(requested, purpose, reply, next),
        next matches TargetState::Removing { listed, .. } && 0 <= i < listed@.len(),
    ensures
        next matches TargetState::Removing { claim, listed, .. } && (listed@[i].shown() == main_artifact(
            claim,
        ) || (!listed@[i].is_main && sidecar_texts(claim.path@).contains(listed@[i].path@))),
{
    if let TargetState::Removing { claim, listed, .. } = next {
        let shown = sqlite_database::shown_artifacts(listed@);
        assert(shown.len() == listed@.len());
        assert(shown[i] == listed@[i].shown());
        match reply {
            TargetReply::Observed(observed) => {
                let files = sqlite_database::found_files(sidecar_texts(claim.path@), observed@);
                lemma_found_files_are_beside(sidecar_texts(claim.path@), observed@);
                assert(shown == seq![main_artifact(claim)] + files);
                if i > 0 {
                    assert(shown[i] == files[i - 1]);
                    assert(is_beside(sidecar_texts(claim.path@), files[i - 1]));
                }
            },
            _ => {
                assert(shown == seq![main_artifact(claim)]);
            },
        }
    }
}

spec fn is_beside(paths: Seq<Seq<char>>, file: Artifact) -> bool {
    !file.is_main && paths.contains(file.path)
}

proof fn lemma_found_files_are_beside(paths: Seq<Seq<char>>, observed: Seq<SidecarObservation>)
    requires
        observed.len() <= paths.len(),
    ensures
        forall|k: int|
            0 <= k < sqlite_database::found_files(paths, observed).len() ==> #[trigger] is_beside(
                paths,
                sqlite_database::found_files(paths, observed)[k],
            ),
    decreases observed.len(),
{
    if observed.len() > 0 {
        let before = sqlite_database::found_files(paths, observed.drop_last());
        let files = sqlite_database::found_files(paths, observed);
        lemma_found_files_are_beside(paths, observed.drop_last());
        assert forall|k: int| 0 <= k < files.len() implies #[trigger] is_beside(paths, files[k]) by {
            if k < before.len() {
                assert(is_beside(paths, before[k]));
            } else {
                assert(paths.contains(paths[observed.len() - 1]));
            }
        }
    }
}

} // verus!
