//! What holds of the files of a database: how they are claimed, verified and cleaned up, and
//! how the storage lives and dies.

use vstd::prelude::*;
use crate::diagnostic::IoError;
use crate::search;
use crate::sqlite_database;
use crate::sqlite_database::{
    Artifact, Assessment, ClaimReply, ClaimedDatabaseTarget, CleanupAssessment, CleanupFailure,
    CreateDatabaseError, DatabaseTargetClaimError, DatabaseTargetPurpose, FinalPathReply, Finding,
    SidecarObservation, SnapshotDatabaseError,
};
use crate::sqlite_error::{SqliteDriverError, SqliteRuntimeError};
use crate::sqlite_open::{ExistingFileError, ExistingFileErrorOrRuntime};
use crate::sqlite_session;
use crate::sqlite_session::OpenSqliteTransactionSessionError;
use crate::sqlite_storage;
use crate::sqlite_storage::{Life, ShortStop, ShutdownStart};
use crate::sqlite_target;
use crate::sqlite_target::{TargetReply, TargetRequest, TargetState};
use crate::sqlite_transaction::ExecuteTransactionError;
use crate::sqlite_wait;
use crate::sqlite_wait::ProbeReply;
use crate::windows::{FileIdentity, WindowsFsError};

verus! {

/// A database has three files beside it: its journal, its log and its shared memory.
pub proof fn databases_have_three_files_beside_them(path: Seq<char>)
    ensures
        sqlite_target::sidecar_texts(path).len() == 3,
        sqlite_target::sidecar_texts(path)[0] == path + "-journal"@,
        sqlite_target::sidecar_texts(path)[1] == path + "-wal"@,
        sqlite_target::sidecar_texts(path)[2] == path + "-shm"@,
        sqlite_database::artifact_paths(path) == seq![path] + sqlite_target::sidecar_texts(path),
{
    assert(sqlite_database::artifact_paths(path) =~= seq![path] + sqlite_target::sidecar_texts(path));
}

/// Whether the system says that nothing is there.
pub open spec fn says_missing(error: WindowsFsError) -> bool {
    error matches WindowsFsError::Io { source, .. } && source.kind is NotFound
}

/// What is seen beside a database: a file that is not there is nothing to worry about, one
/// that cannot be looked at leaves doubt, and something that is no file is left over.
pub proof fn what_is_seen_is_told(path: Seq<char>, observation: SidecarObservation)
    ensures
        ({
            let finding = sqlite_database::sidecar_finding(path, observation);
            let doubtful = match observation {
                SidecarObservation::PinFailed(source) => !says_missing(source),
                SidecarObservation::MetadataFailed(_) => true,
                SidecarObservation::IdentityFailed(_) => true,
                _ => false,
            };
            &&& finding.unknown <==> doubtful
            &&& finding.residual <==> observation is NotAFile
            &&& finding.failure is Some <==> finding.unknown || finding.residual
            &&& observation is NotAFile ==> finding.failure == Some(
                CleanupFailure::InvalidTarget { path },
            )
            &&& observation matches SidecarObservation::PinFailed(source) ==> (doubtful ==> (
            finding.failure matches Some(CleanupFailure::FileSystem { path: p, source: s, .. }) && p
                == path && s == source))
            &&& observation matches SidecarObservation::MetadataFailed(source) ==> (finding.failure
                matches Some(CleanupFailure::FileSystem { path: p, source: s, .. }) && p == path && s
                == source)
            &&& observation matches SidecarObservation::IdentityFailed(source) ==> (finding.failure
                matches Some(CleanupFailure::FileSystem { path: p, source: s, .. }) && p == path && s
                == source)
        }),
{
}

/// What deleting a file says: a file beside the database may be gone already; the database
/// itself must have been there and be the same, or else nobody knows what became of it.
pub proof fn what_is_deleted_is_told(artifact: Artifact, deletion: Result<(), WindowsFsError>)
    ensures
        ({
            let finding = sqlite_database::deletion_finding(artifact, deletion);
            match deletion {
                Ok(_) => !finding.unknown && !finding.residual && finding.failure is None,
                Err(source) => {
                    let gone = says_missing(source) && !artifact.is_main;
                    let lost = artifact.is_main && (says_missing(source) || source
                        is FileIdentityChanged);
                    &&& finding.unknown <==> lost
                    &&& finding.residual <==> !lost && !gone
                    &&& gone <==> finding.failure is None
                    &&& !gone ==> (finding.failure matches Some(CleanupFailure::FileSystem {
                        path,
                        source: s,
                        ..
                    }) && path == artifact.path && s == source)
                },
            }
        }),
{
}

/// What is still there after the cleanup is left over; what cannot be looked for leaves
/// doubt.
pub proof fn what_remains_is_told(path: Seq<char>, found: Result<(), IoError>)
    ensures
        ({
            let finding = sqlite_database::remains_finding(path, found);
            &&& finding.residual <==> found is Ok
            &&& finding.unknown <==> (found matches Err(source) && !(source.kind is NotFound))
            &&& finding.failure is Some <==> finding.unknown
            &&& finding.unknown ==> (finding.failure matches Some(CleanupFailure::Io {
                path: p,
                source,
                ..
            }) && p == path && found == Err::<(), IoError>(source))
        }),
{
}

/// Every finding counts: something is left over, or in doubt, exactly when one of them says
/// so, and no failure is forgotten.
pub proof fn every_finding_counts(assessment: Assessment, findings: Seq<Finding>)
    ensures
        ({
            let whole = assessment.with_all(findings);
            &&& whole.residual <==> assessment.residual || exists|i: int|
                0 <= i < findings.len() && (#[trigger] findings[i]).residual
            &&& whole.unknown <==> assessment.unknown || exists|i: int|
                0 <= i < findings.len() && (#[trigger] findings[i]).unknown
            &&& forall|i: int|
                0 <= i < findings.len() && (#[trigger] findings[i]).failure is Some
                    ==> whole.failures.contains(findings[i].failure->0)
            &&& assessment.failures.len() <= whole.failures.len()
            &&& whole.failures.take(assessment.failures.len() as int) == assessment.failures
            &&& (forall|i: int|
                0 <= i < findings.len() ==> (#[trigger] findings[i]).failure is None)
                ==> whole.failures == assessment.failures
        }),
    decreases findings.len(),
{
    let whole = assessment.with_all(findings);
    let count = assessment.failures.len() as int;
    if findings.len() > 0 {
        let before = findings.drop_last();
        let last = findings[findings.len() - 1];
        let inner = assessment.with_all(before);
        every_finding_counts(assessment, before);
        assert(forall|i: int| 0 <= i < before.len() ==> before[i] == findings[i]);
        if exists|i: int| 0 <= i < findings.len() && (#[trigger] findings[i]).residual {
            let i = choose|i: int| 0 <= i < findings.len() && (#[trigger] findings[i]).residual;
            if i < before.len() {
                assert(before[i].residual);
            }
        }
        if exists|i: int| 0 <= i < before.len() && (#[trigger] before[i]).residual {
            let i = choose|i: int| 0 <= i < before.len() && (#[trigger] before[i]).residual;
            assert(findings[i].residual);
        }
        if exists|i: int| 0 <= i < findings.len() && (#[trigger] findings[i]).unknown {
            let i = choose|i: int| 0 <= i < findings.len() && (#[trigger] findings[i]).unknown;
            if i < before.len() {
                assert(before[i].unknown);
            }
        }
        if exists|i: int| 0 <= i < before.len() && (#[trigger] before[i]).unknown {
            let i = choose|i: int| 0 <= i < before.len() && (#[trigger] before[i]).unknown;
            assert(findings[i].unknown);
        }
        assert forall|i: int|
            0 <= i < findings.len() && (#[trigger] findings[i]).failure is Some implies whole.failures.contains(
            findings[i].failure->0,
        ) by {
            let failure = findings[i].failure->0;
            if i < before.len() {
                assert(inner.failures.contains(before[i].failure->0));
                let k = choose|k: int|
                    0 <= k < inner.failures.len() && inner.failures[k] == before[i].failure->0;
                assert(whole.failures[k] == failure);
            } else {
                assert(whole.failures[whole.failures.len() - 1] == failure);
            }
        }
        assert(whole.failures.take(count) =~= inner.failures.take(count));
        if forall|i: int| 0 <= i < findings.len() ==> (#[trigger] findings[i]).failure is None {
            assert forall|i: int| 0 <= i < before.len() implies (#[trigger] before[i]).failure
                is None by {
                assert(findings[i].failure is None);
            }
        }
    } else {
        assert(whole.failures.take(count) =~= assessment.failures);
    }
}

/// Each file that was looked at, deleted or looked for has its own finding, in order.
pub proof fn findings_stand_in_order(
    paths: Seq<Seq<char>>,
    observed: Seq<SidecarObservation>,
    artifacts: Seq<Artifact>,
    deletions: Seq<Result<(), WindowsFsError>>,
    found: Seq<Result<(), IoError>>,
    i: int,
)
    ensures
        sqlite_database::sidecar_findings(paths, observed).len() == observed.len(),
        0 <= i < observed.len() ==> sqlite_database::sidecar_findings(paths, observed)[i]
            == sqlite_database::sidecar_finding(paths[i], observed[i]),
        sqlite_database::deletion_findings(artifacts, deletions).len() == deletions.len(),
        0 <= i < deletions.len() ==> sqlite_database::deletion_findings(artifacts, deletions)[i]
            == sqlite_database::deletion_finding(artifacts[i], deletions[i]),
        sqlite_database::remains_findings(paths, found).len() == found.len(),
        0 <= i < found.len() ==> sqlite_database::remains_findings(paths, found)[i]
            == sqlite_database::remains_finding(paths[i], found[i]),
{
}

/// The files beside a database that are listed for deletion are exactly those that were
/// identified, each with its own path and identity.
pub proof fn identified_files_are_listed(
    paths: Seq<Seq<char>>,
    observed: Seq<SidecarObservation>,
    i: int,
    identity: FileIdentity,
)
    requires
        0 <= i < observed.len() <= paths.len(),
        observed[i] == SidecarObservation::File(identity),
    ensures
        sqlite_database::found_files(paths, observed).contains(
            (Artifact { path: paths[i], identity, is_main: false }),
        ),
    decreases observed.len(),
{
    let before = observed.drop_last();
    let wanted = Artifact { path: paths[i], identity, is_main: false };
    let all = sqlite_database::found_files(paths, observed);
    if i < before.len() {
        assert(before[i] == observed[i]);
        identified_files_are_listed(paths, before, i, identity);
        let earlier = sqlite_database::found_files(paths, before);
        let k = choose|k: int| 0 <= k < earlier.len() && earlier[k] == wanted;
        assert(all[k] == wanted);
    } else {
        assert(all[all.len() - 1] == wanted);
    }
}

/// No file is listed for deletion that was not identified.
pub proof fn only_identified_files_are_listed(
    paths: Seq<Seq<char>>,
    observed: Seq<SidecarObservation>,
    k: int,
)
    requires
        observed.len() <= paths.len(),
        0 <= k < sqlite_database::found_files(paths, observed).len(),
    ensures
        exists|i: int|
            {
                &&& 0 <= i < observed.len()
                &&& #[trigger] observed[i] == SidecarObservation::File(
                    sqlite_database::found_files(paths, observed)[k].identity,
                )
                &&& sqlite_database::found_files(paths, observed)[k].path == paths[i]
                &&& !sqlite_database::found_files(paths, observed)[k].is_main
            },
    decreases observed.len(),
{
    let before = observed.drop_last();
    let earlier = sqlite_database::found_files(paths, before);
    if k < earlier.len() {
        only_identified_files_are_listed(paths, before, k);
        let i = choose|i: int|
            {
                &&& 0 <= i < before.len()
                &&& #[trigger] before[i] == SidecarObservation::File(earlier[k].identity)
                &&& earlier[k].path == paths[i]
                &&& !earlier[k].is_main
            };
        assert(observed[i] == before[i]);
    } else {
        assert(observed[observed.len() - 1] is File);
    }
}

/// A failed creation is told by what its cleanup left: in doubt, left over or clean. Doubt
/// counts first. The failures of the cleanup follow the failure itself.
pub proof fn failed_creations_tell_what_is_left(
    primary: SqliteRuntimeError,
    cleanup: CleanupAssessment,
)
    ensures
        ({
            let told = sqlite_database::failed_creation(primary, cleanup);
            let source = match told {
                CreateDatabaseError::OutcomeUnknown(source) => source,
                CreateDatabaseError::ResidualArtifact(source) => source,
                CreateDatabaseError::NotCreated(source) => source,
                CreateDatabaseError::AlreadyExists => SqliteRuntimeError::Closed,
            };
            &&& told is OutcomeUnknown <==> cleanup.unknown
            &&& told is ResidualArtifact <==> cleanup.residual && !cleanup.unknown
            &&& told is NotCreated <==> !cleanup.residual && !cleanup.unknown
            &&& cleanup.failures@.len() == 0 ==> source == primary
            &&& cleanup.failures@.len() > 0 ==> (source matches SqliteRuntimeError::Cleanup {
                primary: kept,
                failures,
            } && *kept == primary && failures@ == cleanup.failures@)
        }),
{
}

/// A failed copy is told as the failed creation of its target.
pub proof fn failed_copies_are_told_alike(error: CreateDatabaseError)
    ensures
        match error {
            CreateDatabaseError::AlreadyExists => sqlite_database::as_snapshot(error)
                is DestinationAlreadyExists,
            CreateDatabaseError::NotCreated(source) => sqlite_database::as_snapshot(error)
                == SnapshotDatabaseError::NotCreated(source),
            CreateDatabaseError::ResidualArtifact(source) => sqlite_database::as_snapshot(error)
                == SnapshotDatabaseError::ResidualArtifact(source),
            CreateDatabaseError::OutcomeUnknown(source) => sqlite_database::as_snapshot(error)
                == SnapshotDatabaseError::OutcomeUnknown(source),
        },
{
}

/// A path is claimed exactly when the file was created and identified. A file that was there
/// before is told as such, and only one that was created and not identified leaves doubt.
pub proof fn claims_are_told_as_what_they_are(
    requested: Seq<char>,
    purpose: DatabaseTargetPurpose,
    reply: ClaimReply,
    result: Result<ClaimedDatabaseTarget, DatabaseTargetClaimError>,
)
    requires
        sqlite_database::is_claim(requested, purpose, reply, result),
    ensures
        result is Ok <==> reply is Claimed,
        reply matches ClaimReply::Claimed { path, identity } ==> (result matches Ok(claim) && claim.path
            == path && claim.identity == identity),
        (result matches Err(error) && error is OutcomeUnknown) <==> reply is IdentityFailed,
        (result matches Err(error) && error is AlreadyExists) <==> (reply
            matches ClaimReply::CreateFailed { source: WindowsFsError::Io { source, .. }, .. }
            && source.kind is AlreadyExists),
        reply matches ClaimReply::AbsoluteFailed(source) ==> (result matches Err(
            DatabaseTargetClaimError::NotCreated(SqliteRuntimeError::Io { path, source: s, .. }),
        ) && path@ == requested && s == source),
        reply matches ClaimReply::NoParent { absolute } ==> (result matches Err(
            DatabaseTargetClaimError::NotCreated(SqliteRuntimeError::InvalidTarget { path }),
        ) && path == absolute),
        reply matches ClaimReply::NoFileName { absolute } ==> (result matches Err(
            DatabaseTargetClaimError::NotCreated(SqliteRuntimeError::InvalidTarget { path }),
        ) && path == absolute),
        reply matches ClaimReply::ParentFailed { parent, source } ==> (result matches Err(
            DatabaseTargetClaimError::NotCreated(
                SqliteRuntimeError::WindowsFileSystem { path, source: s, .. },
            ),
        ) && path == parent && s == source),
        reply matches ClaimReply::CreateFailed { path, source } ==> ((result matches Err(
            DatabaseTargetClaimError::NotCreated(
                SqliteRuntimeError::WindowsFileSystem { path: p, source: s, .. },
            ),
        ) && p == path && s == source) || result == Err::<
            ClaimedDatabaseTarget,
            DatabaseTargetClaimError,
        >(DatabaseTargetClaimError::AlreadyExists)),
        reply matches ClaimReply::IdentityFailed { path, source } ==> (result matches Err(
            DatabaseTargetClaimError::OutcomeUnknown(
                SqliteRuntimeError::WindowsFileSystem { path: p, source: s, .. },
            ),
        ) && p == path && s == source),
{
}

/// Whether both identities name the same file on the same volume.
pub open spec fn names_the_same(left: FileIdentity, right: FileIdentity) -> bool {
    left.volume() == right.volume() && left.id() == right.id()
}

/// A new database is accepted exactly when the held file and the file at the path are both
/// still the one that was claimed.
pub proof fn only_the_claimed_file_is_accepted(
    claim: ClaimedDatabaseTarget,
    purpose: DatabaseTargetPurpose,
    held: Result<FileIdentity, WindowsFsError>,
    last: FinalPathReply,
    result: Result<(), SqliteRuntimeError>,
)
    requires
        sqlite_database::is_verified(claim, purpose, held, last, result),
    ensures
        ({
            let held_is_it = held matches Ok(identity) && names_the_same(identity, claim.identity);
            let path_is_it = last matches FinalPathReply::Identity(identity) && names_the_same(
                identity,
                claim.identity,
            );
            &&& result is Ok <==> held_is_it && path_is_it
            &&& held matches Err(source) ==> (result matches Err(
                SqliteRuntimeError::WindowsFileSystem { path, source: s, .. },
            ) && path@ == claim.path@ && s == source)
            &&& held is Ok && !held_is_it ==> (result matches Err(error) && error is Internal)
            &&& held_is_it ==> (last matches FinalPathReply::PinFailed(source) ==> (result matches Err(
                SqliteRuntimeError::WindowsFileSystem { path, source: s, .. },
            ) && path@ == claim.path@ && s == source))
            &&& held_is_it ==> (last matches FinalPathReply::IdentityFailed(source) ==> (result
                matches Err(SqliteRuntimeError::WindowsFileSystem { path, source: s, .. }) && path@
                == claim.path@ && s == source))
            &&& held_is_it && last is Identity && !path_is_it ==> (result matches Err(error) && error
                is Internal)
        }),
{
}

/// Whether a path that should be free is, as far as the system can tell.
pub open spec fn is_free(found: Result<(), IoError>) -> bool {
    found matches Err(source) && source.kind is NotFound
}

/// A new database is worked on exactly when it was claimed and nothing is beside it; what was
/// worked on is verified, what failed is looked at and removed, and nothing ends before.
pub proof fn new_files_are_worked_on_and_verified(
    state: TargetState,
    requested: Seq<char>,
    purpose: DatabaseTargetPurpose,
    reply: TargetReply,
    next: TargetState,
)
    requires
        state.expects(reply),
        state.leads_to(requested, purpose, reply, next),
    ensures
        match (state, reply) {
            (TargetState::Claiming, TargetReply::Claimed(claim)) => {
                &&& next is CheckingSidecars <==> claim is Claimed
                &&& next is Finished <==> !(claim is Claimed)
                &&& next matches TargetState::Finished { result } ==> result is Err
            },
            (TargetState::CheckingSidecars { claim }, TargetReply::Looked(found)) => {
                &&& next is Working <==> is_free(found@[0]) && is_free(found@[1]) && is_free(found@[2])
                &&& next is Removing <==> !(next is Working)
                &&& next matches TargetState::Working { claim: kept } ==> kept == claim
                &&& next matches TargetState::Removing { claim: kept, listed, .. } ==> kept == claim
                    && listed@.len() == 1 && listed@[0].path@ == claim.path@ && listed@[0].is_main
                    && listed@[0].identity == claim.identity
            },
            (TargetState::Working { claim }, TargetReply::Worked(result)) => {
                &&& result is Ok ==> (next matches TargetState::Verifying { claim: kept } && kept == claim)
                &&& result matches Err(error) ==> (next matches TargetState::Observing {
                    claim: kept,
                    primary,
                } && kept == claim && primary == error)
            },
            (TargetState::Observing { claim, primary }, TargetReply::Observed(_)) => next
                matches TargetState::Removing { claim: kept, primary: told, .. } && kept == claim && told
                == primary,
            (TargetState::Removing { .. }, TargetReply::Removed { .. }) => next
                matches TargetState::Finished { result } && result is Err,
            (TargetState::Verifying { claim }, TargetReply::Verified { held, last }) => {
                let held_is_it = held matches Ok(identity) && names_the_same(identity, claim.identity);
                let path_is_it = last matches FinalPathReply::Identity(identity) && names_the_same(
                    identity,
                    claim.identity,
                );
                &&& next matches TargetState::Finished { result }
                &&& result is Ok <==> held_is_it && path_is_it
                &&& result matches Err(error) ==> error is OutcomeUnknown
            },
            _ => false,
        },
{
    match (state, reply) {
        (TargetState::CheckingSidecars { claim }, TargetReply::Looked(found)) => {
            let taken = sqlite_target::unexpected(found@);
            search::lemma_first_meaning(taken, 0, found@.len() as int);
            assert(taken(0) == !is_free(found@[0]));
            assert(taken(1) == !is_free(found@[1]));
            assert(taken(2) == !is_free(found@[2]));
            if let TargetState::Removing { listed, .. } = next {
                let shown = sqlite_database::shown_artifacts(listed@);
                assert(shown.len() == 1);
                assert(shown[0] == listed@[0].shown());
                assert(shown[0] == sqlite_target::main_artifact(claim));
            }
        },
        _ => {},
    }
}

/// What lies beside a new database is told by the first place where something is, or may be.
pub proof fn first_intruders_are_told(
    claim: ClaimedDatabaseTarget,
    requested: Seq<char>,
    purpose: DatabaseTargetPurpose,
    found: Vec<Result<(), IoError>>,
    next: TargetState,
    i: int,
)
    requires
        found@.len() == 3,
        (TargetState::CheckingSidecars { claim }).leads_to(
            requested,
            purpose,
            TargetReply::Looked(found),
            next,
        ),
        0 <= i < 3,
        !is_free(found@[i]),
        forall|k: int| 0 <= k < i ==> is_free(#[trigger] found@[k]),
    ensures
        next matches TargetState::Removing { primary, assessment, .. } && ({
            let path = sqlite_target::sidecar_texts(claim.path@)[i];
            match found@[i] {
                Ok(_) => {
                    &&& primary matches SqliteRuntimeError::UnexpectedArtifact { path: p }
                    &&& p@ == path
                    &&& assessment@.residual && !assessment@.unknown
                },
                Err(source) => {
                    &&& primary matches SqliteRuntimeError::Io { path: p, source: s, .. }
                    &&& p@ == path
                    &&& s == source
                    &&& !assessment@.residual && assessment@.unknown
                },
            }
        }),
{
    let taken = sqlite_target::unexpected(found@);
    assert(taken(i));
    assert forall|k: int| 0 <= k < i implies !#[trigger] taken(k) by {
        assert(is_free(found@[k]));
    }
    search::lemma_first_found(taken, 0, 3, i);
}

/// An operation that stopped is told by where it stopped; only one whose worker was lost may
/// have had an effect.
pub proof fn stopped_operations_are_told_by_where(stop: ShortStop)
    ensures
        stop.is_uncertain() <==> stop is Lost,
        stop is NotAccepted || stop is NotSent <==> stop.error() is Closed,
        stop is NotAdmitted <==> stop.error() is Cancelled,
        stop is Lost <==> stop.error() is WorkerPanicked,
{
}

/// The storage runs until it is shut down once: giving up waits closes the admission, a
/// shutdown also refuses new work, and nothing but the end of all workers closes it.
pub proof fn storages_shut_down_once(life: Life)
    ensures
        ({
            let (running, cancelled, shut, closed, abandoned) = (
                Life::running(),
                life.cancelled(),
                life.shut_down(),
                life.closed(),
                life.abandoned(),
            );
            &&& running.accepting && running.lifecycle == 0 && !running.admission_closed
                && !running.given_up
            &&& cancelled.admission_closed && cancelled.given_up
            &&& cancelled.accepting == life.accepting && cancelled.lifecycle == life.lifecycle
            &&& life.lifecycle == 0 ==> !shut.accepting && shut.lifecycle == 1 && shut.admission_closed
                && shut.given_up
            &&& life.lifecycle != 0 ==> shut == life
            &&& closed.lifecycle == 2 && closed.accepting == life.accepting
            &&& closed.admission_closed == life.admission_closed && closed.given_up == life.given_up
            &&& !abandoned.accepting && abandoned.admission_closed && abandoned.given_up
                && abandoned.lifecycle == life.lifecycle
        }),
{
}

/// Work stops when the probe says so or panics, but never while it is suspended; ending a
/// suspension counts once.
pub proof fn suspended_work_does_not_stop(suspensions: nat, probe: ProbeReply, in_force: bool)
    ensures
        sqlite_wait::asks(suspensions) <==> suspensions == 0,
        suspensions > 0 ==> !sqlite_wait::stops(suspensions, probe),
        suspensions == 0 ==> (sqlite_wait::stops(suspensions, probe) <==> probe is Panicked || probe
            == ProbeReply::Answered(true)),
        in_force && suspensions > 0 ==> sqlite_wait::after_end(suspensions, in_force) == suspensions - 1,
        !in_force ==> sqlite_wait::after_end(suspensions, in_force) == suspensions,
{
}

/// A fixed number of workers is started as given; otherwise as many as there are processors,
/// and never more than four. Without that number nothing is started.
pub proof fn workers_are_few(fixed: Option<usize>, available: Result<usize, IoError>)
    ensures
        ({
            let started = sqlite_storage::workers(fixed, available);
            &&& fixed matches Some(count) ==> started == Ok::<usize, SqliteRuntimeError>(count)
            &&& fixed is None ==> (started is Ok <==> available is Ok)
            &&& fixed is None ==> (available matches Ok(processors) ==> {
                &&& started->Ok_0 <= 4
                &&& started->Ok_0 <= processors
                &&& started->Ok_0 == 4 || started->Ok_0 == processors
            })
            &&& fixed is None ==> (available matches Err(source) ==> started == Err::<
                usize,
                SqliteRuntimeError,
            >(SqliteRuntimeError::AvailableParallelism { source }))
        }),
{
}

/// The texts of a list of paths are its paths, in order.
pub proof fn listed_paths_keep_their_order(paths: Seq<String>, i: int)
    ensures
        sqlite_database::path_texts(paths).len() == paths.len(),
        0 <= i < paths.len() ==> sqlite_database::path_texts(paths)[i] == paths[i]@,
{
}

/// The work on a new database asks for one thing at a time: the path is claimed as requested,
/// everything after that is about the file that was claimed and the files beside it, and what
/// is removed is what was listed.
pub proof fn new_files_are_asked_for_by_their_claim(
    state: TargetState,
    requested: Seq<char>,
    request: TargetRequest<'_>,
)
    requires
        sqlite_target::is_request(state, requested, request),
    ensures
        state is Claiming <==> request is Claim,
        state is CheckingSidecars <==> request is LookFor,
        state is Working <==> request is Work,
        state is Observing <==> request is Observe,
        state is Removing <==> request is Remove,
        state is Verifying <==> request is Verify,
        state is Finished <==> request is Nothing,
        request matches TargetRequest::Claim { path } ==> path@ == requested,
        state matches TargetState::CheckingSidecars { claim } ==> (request matches TargetRequest::LookFor {
            paths,
        } && paths.len() == 3 && paths@[0]@ == claim.path@ + "-journal"@ && paths@[1]@ == claim.path@
            + "-wal"@ && paths@[2]@ == claim.path@ + "-shm"@),
        state matches TargetState::Working { claim } ==> (request matches TargetRequest::Work { path }
            && path@ == claim.path@),
        state matches TargetState::Observing { claim, .. } ==> (request matches TargetRequest::Observe {
            paths,
        } && paths.len() == 3 && paths@[0]@ == claim.path@ + "-journal"@ && paths@[1]@ == claim.path@
            + "-wal"@ && paths@[2]@ == claim.path@ + "-shm"@),
        state matches TargetState::Removing { claim, listed, .. } ==> (request
            matches TargetRequest::Remove { listed: named, paths } && *named == listed && paths.len()
            == 4 && paths@[0]@ == claim.path@ && paths@[1]@ == claim.path@ + "-journal"@ && paths@[2]@
            == claim.path@ + "-wal"@ && paths@[3]@ == claim.path@ + "-shm"@),
        state matches TargetState::Verifying { claim } ==> (request matches TargetRequest::Verify {
            claim: named,
        } && *named == claim),
{
    match request {
        TargetRequest::LookFor { paths } | TargetRequest::Observe { paths } => {
            let texts = sqlite_database::path_texts(paths@);
            assert(texts.len() == paths@.len());
            assert(texts[0] == paths@[0]@ && texts[1] == paths@[1]@ && texts[2] == paths@[2]@);
        },
        TargetRequest::Remove { paths, .. } => {
            let texts = sqlite_database::path_texts(paths@);
            assert(texts.len() == paths@.len());
            assert(texts[0] == paths@[0]@ && texts[1] == paths@[1]@);
            assert(texts[2] == paths@[2]@ && texts[3] == paths@[3]@);
        },
        _ => {},
    }
}

/// Only the first call shuts a storage down; a later one finds it closed, or is refused while
/// the first is still at it.
pub proof fn one_call_shuts_down(lifecycle: u8)
    ensures
        sqlite_storage::shutdown_start(lifecycle) is Begin <==> lifecycle == 0,
        sqlite_storage::shutdown_start(lifecycle) is AlreadyClosed <==> lifecycle == 2,
        lifecycle != 0 && lifecycle != 2 <==> (sqlite_storage::shutdown_start(lifecycle)
            matches ShutdownStart::Refused(SqliteRuntimeError::Internal(_))),
{
}

/// The source of a copy, and the database of a session, that cannot be opened are told as
/// missing, as no file, or as what failed.
pub proof fn unread_sources_are_told_as_what_they_are(
    path: Seq<char>,
    error: ExistingFileErrorOrRuntime,
    copy: SnapshotDatabaseError,
    session: OpenSqliteTransactionSessionError,
)
    requires
        sqlite_database::is_unread_source(path, error, copy),
        sqlite_session::is_refused_for(path, error, session),
    ensures
        copy is SourceNotFound <==> (error matches ExistingFileErrorOrRuntime::Existing(
            ExistingFileError::NotFound,
        )),
        session is NotFound <==> (error matches ExistingFileErrorOrRuntime::Existing(
            ExistingFileError::NotFound,
        )),
        error matches ExistingFileErrorOrRuntime::Existing(ExistingFileError::InvalidTarget) ==> ({
            &&& copy matches SnapshotDatabaseError::NotCreated(
                SqliteRuntimeError::InvalidTarget { path: p },
            )
            &&& p@ == path
            &&& session matches OpenSqliteTransactionSessionError::OpenFailed(
                SqliteRuntimeError::InvalidTarget { path: q },
            )
            &&& q@ == path
        }),
        error matches ExistingFileErrorOrRuntime::Existing(ExistingFileError::Io(failure)) ==> ({
            &&& copy matches SnapshotDatabaseError::NotCreated(
                SqliteRuntimeError::Io { operation: copying, path: p, source: s },
            )
            &&& copying == "检查快照源数据库" && p@ == path && s == failure
            &&& session matches OpenSqliteTransactionSessionError::OpenFailed(
                SqliteRuntimeError::Io { operation: opening, path: q, source: t },
            )
            &&& opening == "检查交互式数据库" && q@ == path && t == failure
        }),
        error matches ExistingFileErrorOrRuntime::Runtime(failure) ==> ({
            &&& copy == SnapshotDatabaseError::NotCreated(failure)
            &&& session == OpenSqliteTransactionSessionError::OpenFailed(failure)
        }),
{
}

/// A stopped operation had no effect, and says so, unless its worker was lost: then nobody
/// knows.
pub proof fn only_lost_operations_are_uncertain(stop: ShortStop)
    ensures
        stop is Lost ==> ({
            &&& stop.as_creation() == CreateDatabaseError::OutcomeUnknown(stop.error())
            &&& stop.as_snapshot() == SnapshotDatabaseError::OutcomeUnknown(stop.error())
            &&& stop.as_transaction() == ExecuteTransactionError::OutcomeUnknown(stop.error())
        }),
        !(stop is Lost) ==> ({
            &&& stop.as_creation() == CreateDatabaseError::NotCreated(stop.error())
            &&& stop.as_snapshot() == SnapshotDatabaseError::NotCreated(stop.error())
            &&& stop.as_transaction() == ExecuteTransactionError::NotCommitted(stop.error())
        }),
{
}

/// A storage takes work exactly while it accepts it, and is closed for the rest. A shutdown
/// ends well unless a worker panicked, and only a storage that is not closed yet waits for
/// the workers that are left.
pub proof fn closed_storages_take_no_work(life: Life, workers_left: bool, panicked: bool)
    ensures
        life.admission() is Ok <==> life.accepting,
        life.admission() matches Err(error) ==> error is Closed,
        life.shut_down().admission() is Err || life.lifecycle != 0,
        life.abandoned().admission() is Err,
        life.waits_for(workers_left) <==> workers_left && life.lifecycle != 2,
        sqlite_storage::shutdown_result(panicked) is Err <==> panicked,
        sqlite_storage::shutdown_result(panicked) matches Err(error) ==> error is WorkerPanicked,
{
}

/// A wait for a lock is given up as soon as it is cancelled; otherwise it sleeps once and
/// then tries again. A connection was closed well exactly when it was closed and both of its
/// callbacks were taken off; of several failures the one to close it is told, and then the
/// one of the progress callback.
pub proof fn waits_and_connections_come_to_an_end(
    cancelled: bool,
    slept: bool,
    progress: Result<(), SqliteDriverError>,
    busy: Result<(), SqliteDriverError>,
    close: Result<(), SqliteDriverError>,
)
    ensures
        sqlite_wait::wait_after(cancelled, slept) is GiveUp <==> cancelled,
        sqlite_wait::wait_after(cancelled, slept) is TryAgain <==> !cancelled && slept,
        sqlite_wait::wait_after(cancelled, slept) is Sleep <==> !cancelled && !slept,
        sqlite_wait::closing(progress, busy, close) is Ok <==> progress is Ok && busy is Ok && close
            is Ok,
        close matches Err(error) ==> sqlite_wait::closing(progress, busy, close) == Err::<
            (),
            SqliteDriverError,
        >(error),
        close is Ok ==> (progress matches Err(error) ==> sqlite_wait::closing(progress, busy, close)
            == Err::<(), SqliteDriverError>(error)),
        close is Ok && progress is Ok ==> sqlite_wait::closing(progress, busy, close) == busy,
{
}

/// A plan that never reached its session is not committed; one that did, and whose answer
/// never came, may be. A session starts ready exactly when no transaction is open.
pub proof fn unanswered_plans_are_uncertain(handed_over: bool, autocommit: bool)
    ensures
        handed_over <==> sqlite_session::lost(handed_over) is OutcomeUnknown,
        !handed_over <==> sqlite_session::lost(handed_over) == ExecuteTransactionError::NotCommitted(
            SqliteRuntimeError::Closed,
        ),
        autocommit <==> sqlite_session::first_state(autocommit) is Ready,
        !autocommit <==> sqlite_session::first_state(autocommit) is Indeterminate,
{
}

} // verus!
