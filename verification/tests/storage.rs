use att_runtime::cpu::CpuTaskExecutionError;
use att_runtime::diagnostic::{IoError, SafeIoKind, StateEffect};
use att_runtime::file_system::{
    DirectoryEntry, DirectoryEntryKind, ListDirectoryError, ReadFile, ReadFileError,
    ResolveDirectoryError,
};
use att_runtime::performance::{
    RunPerformanceCounters, SqliteTransactionControl, SqliteTransactionScope,
};
use att_runtime::run_id::{
    counts_as_empty, maximum_sequence, RunArtifactKind, RunId, RunReservation,
};
use att_runtime::scoped::{
    BoundScopedDirectory, ScopedDirectoryBindError, ScopedDirectoryEditError,
    ScopedDirectoryEntry, ScopedDirectoryEntryKind, ScopedDirectoryPath, ScopedDirectoryScope,
    ScopedDirectoryScopeError,
};
use att_runtime::sqlite_copy::{
    after_backup_step, before_backup_step, copy_failure, BackupAction, BackupStep, CopyPart,
};
use att_runtime::sqlite_database::{
    creation_failure, database_artifact_paths, map_snapshot_error, ClaimReply, CleanupAssessment,
    CreateDatabaseError, DatabaseTargetPurpose, FinalPathReply, SidecarObservation,
    snapshot_failure, SnapshotDatabaseError,
};
use att_runtime::sqlite_error::{SqliteDriverCause, SqliteDriverError, SqliteRuntimeError};
use att_runtime::sqlite_target::{DatabaseTargetRun, TargetReply, TargetRequest};
use att_runtime::windows::{FileIdentity, WindowsFsError};

fn text(value: &str) -> String {
    value.to_owned()
}

fn texts(values: &[&str]) -> Vec<String> {
    values.iter().map(|value| text(value)).collect()
}

fn io(kind: SafeIoKind) -> IoError {
    IoError {
        kind,
        raw_os_code: None,
        text: text("os"),
    }
}

fn windows_io(kind: SafeIoKind) -> WindowsFsError {
    WindowsFsError::Io {
        operation: "打开",
        path: text("p"),
        source: io(kind),
    }
}

#[test]
fn reserves_the_next_sequence_across_logs_and_task_records() {
    let mut logs = texts(&["run-000002.jsonl"]);
    let task_records = texts(&["run-000004"]);
    let first = RunReservation::new(&logs, &task_records)
        .expect("应保留下一序号")
        .run();
    logs.push(first.log_name());
    let second = RunReservation::new(&logs, &task_records)
        .expect("应继续递增")
        .run();
    assert_eq!(first.name(), "run-000005");
    assert_eq!(second.name(), "run-000006");
    assert_eq!(first.log_name(), "run-000005.jsonl");
    assert_eq!(second.log_name(), "run-000006.jsonl");
}

#[test]
fn task_record_file_does_not_block_log_reservation() {
    assert!(counts_as_empty(
        RunArtifactKind::TaskRecordDirectory,
        SafeIoKind::Other,
        true
    ));
    assert!(counts_as_empty(
        RunArtifactKind::Log,
        SafeIoKind::NotFound,
        false
    ));
    assert!(!counts_as_empty(
        RunArtifactKind::Log,
        SafeIoKind::Other,
        true
    ));
    let run = RunReservation::new(&Vec::new(), &Vec::new())
        .expect("日志仍应建立")
        .run();
    assert_eq!(run.name(), "run-000001");
    assert_eq!(run.log_name(), "run-000001.jsonl");
}

#[test]
fn only_whole_run_names_count() {
    assert_eq!(RunId::parse("run-000012").map(RunId::sequence), Some(12));
    assert_eq!(
        RunId::parse("run-1234567").map(RunId::sequence),
        Some(1_234_567)
    );
    for name in [
        "run-000000",
        "run-12",
        "run-0000012",
        "run-00001x",
        "RUN-000001",
        "run-18446744073709551616",
        "",
    ] {
        assert!(RunId::parse(name).is_none(), "{name}");
    }
    assert!(RunId::from_sequence(0).is_none());
    assert_eq!(
        maximum_sequence(
            &texts(&["run-000003.jsonl", "run-000009", "notes.jsonl"]),
            RunArtifactKind::Log
        ),
        3
    );
    let last = RunReservation::new(&texts(&["run-18446744073709551614.jsonl"]), &Vec::new())
        .expect("最后一个序号仍可用");
    assert_eq!(last.run().sequence(), u64::MAX);
    assert!(last.taken().is_err());
    assert!(
        RunReservation::new(&texts(&["run-18446744073709551615.jsonl"]), &Vec::new()).is_err()
    );
}

#[test]
fn scopes_hold_different_top_level_names() {
    assert_eq!(
        ScopedDirectoryScope::new(Vec::new()),
        Err(ScopedDirectoryScopeError::Empty)
    );
    for bad in ["", "a/b", "..", ".", "C:", "/a"] {
        assert_eq!(
            ScopedDirectoryScope::new(texts(&["data", bad])),
            Err(ScopedDirectoryScopeError::InvalidRoot { root: text(bad) }),
            "{bad}"
        );
    }
    let duplicate = ScopedDirectoryScope::new(texts(&["b", "a", "b"]))
        .expect_err("重复声明必须被拒绝");
    assert_eq!(duplicate.message(), "候选编辑范围重复声明顶层目录：b");
    let scope = ScopedDirectoryScope::new(texts(&["js", "data"])).expect("范围应有效");
    assert_eq!(scope.roots(), &texts(&["data", "js"]));
    let file = ScopedDirectoryPath::new(text("data"), texts(&["Map001.json"]));
    let root = ScopedDirectoryPath::new(text("js"), Vec::new());
    let outside = ScopedDirectoryPath::new(text("img"), Vec::new());
    assert!(scope.contains(&file));
    assert!(!scope.is_scope_root(&file));
    assert!(scope.is_scope_root(&root));
    assert!(!scope.contains(&outside));
    let bound = BoundScopedDirectory::new(text("root"), scope, 7_u8);
    assert_eq!(bound.root(), "root");
    assert_eq!(*bound.state(), 7);
    let entry = ScopedDirectoryEntry::new(text("a"), ScopedDirectoryEntryKind::File);
    assert_eq!(entry.name(), "a");
    assert_eq!(entry.kind(), ScopedDirectoryEntryKind::File);
}

#[test]
fn storage_failures_in_words() {
    let failed: ScopedDirectoryBindError<&str> = ScopedDirectoryBindError::Failed {
        root: text("r"),
        source: "s",
    };
    assert_eq!(failed.message("s"), "无法绑定目录候选 r：s");
    assert_eq!(failed.source(), Some(&"s"));
    let outside: ScopedDirectoryEditError<&str> =
        ScopedDirectoryEditError::OutsideScope { path: text("p") };
    assert_eq!(
        outside.message(""),
        "候选路径不在调用方声明的编辑范围内：p"
    );
    assert!(outside.source().is_none());
    let unavailable = CpuTaskExecutionError::Unavailable("gone");
    assert_eq!(unavailable.message("gone"), "CPU 执行器不可用：gone");
    let panicked: CpuTaskExecutionError<&str> = CpuTaskExecutionError::TaskPanicked;
    assert_eq!(panicked.message(""), "CPU 任务执行时发生 panic");
    assert!(panicked.source().is_none());
    let resolve: ResolveDirectoryError<&str> = ResolveDirectoryError::Io {
        path: text("p"),
        source: "s",
    };
    assert_eq!(resolve.message("s"), "无法解析目录 p：s");
    let list: ListDirectoryError<&str> = ListDirectoryError::NotDirectory { path: text("p") };
    assert_eq!(list.message(""), "路径不是目录：p");
    let read: ReadFileError<&str> = ReadFileError::NotFile { path: text("p") };
    assert_eq!(read.message(""), "路径不是文件：p");
    let file = ReadFile::new(text("p"), vec![1, 2]);
    assert_eq!(file.resolved_path(), "p");
    assert_eq!(file.into_bytes(), [1, 2]);
    let entry = DirectoryEntry::new(text("p"), DirectoryEntryKind::Directory);
    assert_eq!(entry.resolved_path(), "p");
    assert_eq!(entry.kind(), DirectoryEntryKind::Directory);
}

#[test]
fn the_stronger_effect_wins() {
    assert_eq!(
        StateEffect::Unchanged.strongest(StateEffect::OutcomeUnknown),
        StateEffect::OutcomeUnknown
    );
    assert_eq!(
        StateEffect::OutcomeUnknown.strongest(StateEffect::Unchanged),
        StateEffect::OutcomeUnknown
    );
}

#[test]
fn transaction_controls_are_counted_per_scope() {
    let mut counters = RunPerformanceCounters::new();
    let scope = SqliteTransactionScope::ReadSnapshot;
    counters.record(scope, SqliteTransactionControl::Begin, true);
    counters.record(scope, SqliteTransactionControl::Begin, false);
    counters.record(scope, SqliteTransactionControl::Commit, true);
    let counts = counters.snapshot().sqlite_transactions;
    assert_eq!(counts.read_snapshot.begin.succeeded, 1);
    assert_eq!(counts.read_snapshot.commit.attempted, 1);
    assert_eq!(counts.read_snapshot.commit.succeeded, 0);
    assert_eq!(counts.write_plan.begin.attempted, 0);
    assert_eq!(counts.attempted_total(), 2);
}

fn identity(last: u8) -> FileIdentity {
    FileIdentity::from_parts(7, [last; 16])
}

fn absent() -> Result<(), IoError> {
    Err(io(SafeIoKind::NotFound))
}

fn claimed(purpose: DatabaseTargetPurpose) -> DatabaseTargetRun {
    let run = DatabaseTargetRun::new(text("project.db"), purpose);
    assert!(matches!(run.request(), TargetRequest::Claim { path: "project.db" }));
    let run = run.advance(TargetReply::Claimed(ClaimReply::Claimed {
        path: text("D:/project.db"),
        identity: identity(1),
    }));
    assert!(matches!(
        run.request(),
        TargetRequest::LookFor { paths }
            if paths == texts(&["D:/project.db-journal", "D:/project.db-wal", "D:/project.db-shm"])
    ));
    run
}

fn working(purpose: DatabaseTargetPurpose) -> DatabaseTargetRun {
    let run = claimed(purpose).advance(TargetReply::Looked(vec![absent(), absent(), absent()]));
    assert!(matches!(run.request(), TargetRequest::Work { path: "D:/project.db" }));
    run
}

#[test]
fn a_new_database_counts_only_while_its_path_names_the_claimed_file() {
    for (held, last, accepted) in [
        (identity(1), identity(1), true),
        (identity(1), identity(2), false),
        (identity(2), identity(1), false),
    ] {
        let run = working(DatabaseTargetPurpose::Create).advance(TargetReply::Worked(Ok(())));
        assert!(matches!(run.request(), TargetRequest::Verify { .. }));
        let run = run.advance(TargetReply::Verified {
            held: Ok(held),
            last: FinalPathReply::Identity(last),
        });
        assert!(matches!(run.request(), TargetRequest::Nothing));
        let result = run.into_result();
        if accepted {
            assert_eq!(result, Ok(()));
        } else {
            assert_eq!(
                result,
                Err(CreateDatabaseError::OutcomeUnknown(
                    SqliteRuntimeError::Internal("新数据库物理身份在初始化期间发生变化")
                ))
            );
        }
    }
}

#[test]
fn claims_tell_a_taken_path_from_a_failure() {
    let claim = |reply| {
        DatabaseTargetRun::new(text("project.db"), DatabaseTargetPurpose::Create)
            .advance(TargetReply::Claimed(reply))
            .into_result()
    };
    assert_eq!(
        claim(ClaimReply::CreateFailed {
            path: text("p"),
            source: windows_io(SafeIoKind::AlreadyExists)
        }),
        Err(CreateDatabaseError::AlreadyExists)
    );
    assert!(matches!(
        claim(ClaimReply::CreateFailed {
            path: text("p"),
            source: windows_io(SafeIoKind::PermissionDenied)
        }),
        Err(CreateDatabaseError::NotCreated(
            SqliteRuntimeError::WindowsFileSystem { .. }
        ))
    ));
    assert!(matches!(
        claim(ClaimReply::IdentityFailed {
            path: text("p"),
            source: windows_io(SafeIoKind::PermissionDenied)
        }),
        Err(CreateDatabaseError::OutcomeUnknown(_))
    ));
    assert_eq!(
        claim(ClaimReply::NoParent {
            absolute: text("p")
        }),
        Err(CreateDatabaseError::NotCreated(
            SqliteRuntimeError::InvalidTarget { path: text("p") }
        ))
    );
}

#[test]
fn failed_creation_removes_main_file_and_what_it_left_beside_it() {
    let run = working(DatabaseTargetPurpose::Create)
        .advance(TargetReply::Worked(Err(SqliteRuntimeError::Internal("初始化失败"))));
    assert!(matches!(run.request(), TargetRequest::Observe { .. }));
    let run = run.advance(TargetReply::Observed(vec![
        SidecarObservation::PinFailed(windows_io(SafeIoKind::NotFound)),
        SidecarObservation::File(identity(9)),
        SidecarObservation::PinFailed(windows_io(SafeIoKind::NotFound)),
    ]));
    match run.request() {
        TargetRequest::Remove { listed, paths } => {
            assert_eq!(listed.len(), 2);
            assert_eq!(listed[0].path, "D:/project.db");
            assert!(listed[0].is_main);
            assert_eq!(listed[1].path, "D:/project.db-wal");
            assert!(listed[1].identity.same_as(&identity(9)));
            assert_eq!(paths, database_artifact_paths("D:/project.db"));
        }
        _ => panic!("必须先删除"),
    }
    let result = run
        .advance(TargetReply::Removed {
            deletions: vec![Ok(()), Ok(())],
            found: vec![absent(), absent(), absent(), absent()],
        })
        .into_result();
    assert_eq!(
        result,
        Err(CreateDatabaseError::NotCreated(
            SqliteRuntimeError::Internal("初始化失败")
        ))
    );
}

#[test]
fn a_preexisting_sidecar_is_never_listed_for_deletion() {
    let run = claimed(DatabaseTargetPurpose::Create)
        .advance(TargetReply::Looked(vec![absent(), Ok(()), absent()]));
    match run.request() {
        TargetRequest::Remove { listed, .. } => {
            assert_eq!(listed.len(), 1);
            assert_eq!(listed[0].path, "D:/project.db");
        }
        _ => panic!("必须只删除新文件"),
    }
    let result = run
        .advance(TargetReply::Removed {
            deletions: vec![Ok(())],
            found: vec![absent(), absent(), Ok(()), absent()],
        })
        .into_result();
    assert!(matches!(
        result,
        Err(CreateDatabaseError::ResidualArtifact(_))
    ));
}

#[test]
fn a_replaced_file_is_left_alone_and_reported() {
    let run = working(DatabaseTargetPurpose::Create)
        .advance(TargetReply::Worked(Err(SqliteRuntimeError::Closed)))
        .advance(TargetReply::Observed(vec![
            SidecarObservation::PinFailed(windows_io(SafeIoKind::NotFound)),
            SidecarObservation::PinFailed(windows_io(SafeIoKind::NotFound)),
            SidecarObservation::PinFailed(windows_io(SafeIoKind::NotFound)),
        ]));
    let result = run
        .advance(TargetReply::Removed {
            deletions: vec![Err(WindowsFsError::FileIdentityChanged {
                path: text("D:/project.db"),
            })],
            found: vec![Ok(()), absent(), absent(), absent()],
        })
        .into_result();
    assert!(matches!(
        result,
        Err(CreateDatabaseError::OutcomeUnknown(
            SqliteRuntimeError::Cleanup { .. }
        ))
    ));
}

#[test]
fn snapshots_fail_as_creations_do() {
    assert_eq!(
        map_snapshot_error(CreateDatabaseError::AlreadyExists),
        SnapshotDatabaseError::DestinationAlreadyExists
    );
    assert_eq!(
        creation_failure(SqliteRuntimeError::Closed, CleanupAssessment::clean()),
        CreateDatabaseError::NotCreated(SqliteRuntimeError::Closed)
    );
    assert_eq!(
        snapshot_failure(SqliteRuntimeError::Closed, CleanupAssessment::clean()),
        SnapshotDatabaseError::NotCreated(SqliteRuntimeError::Closed)
    );
}

#[test]
fn backups_wait_for_locks_and_stop_when_cancelled() {
    let busy = || SqliteDriverError {
        cause: SqliteDriverCause::SqliteFailure { extended_code: 5 },
        text: text("busy"),
    };
    assert_eq!(before_backup_step(false), BackupAction::Step);
    assert_eq!(
        before_backup_step(true),
        BackupAction::Finished(Err(SqliteRuntimeError::Cancelled {
            operation: "执行 online backup"
        }))
    );
    assert_eq!(
        after_backup_step(Ok(BackupStep::More), false),
        BackupAction::Step
    );
    assert_eq!(
        after_backup_step(Ok(BackupStep::Locked), false),
        BackupAction::SleepAndStep
    );
    assert_eq!(
        after_backup_step(Ok(BackupStep::Done), false),
        BackupAction::Finished(Ok(()))
    );
    assert_eq!(
        after_backup_step(Ok(BackupStep::Unknown), false),
        BackupAction::Finished(Err(SqliteRuntimeError::BackupIncomplete("未知状态")))
    );
    assert!(matches!(
        after_backup_step(Err(busy()), true),
        BackupAction::Finished(Err(SqliteRuntimeError::Cancelled { .. }))
    ));
    assert!(matches!(
        copy_failure(CopyPart::Backup, busy(), false),
        SqliteRuntimeError::Driver {
            operation: "建立 online backup",
            ..
        }
    ));
}
