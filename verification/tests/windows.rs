use att_runtime::diagnostic::{IoError, IoFailure, SafeIoKind, SafePath};
use att_runtime::windows::{
    after_creating, after_lock_attempt, after_opening, before_lock_attempt, check_case,
    check_drive, check_file_system_buffer, delete_empty_directory_if_identity,
    delete_regular_file_if_identity, reject_reparse, rename_failure, rename_layout,
    rename_without_replace_if_identity, require_directory, require_regular_file, secure_uuid_v4,
    share_mode, validate_local_case_insensitive_ntfs_directory, DiagnosticAction,
    DiagnosticFailureKind, DiagnosticReason, DiagnosticSubject, DirectoryStep, FileIdentity,
    LockStep, OpenedObject, VolumeAnswer, VolumeQuestion, VolumeVerdict, WindowsFsError,
    DRIVE_FIXED, FILE_ATTRIBUTE_REPARSE_POINT,
};
use att_runtime::windows_walk::{
    absolute_path_failure, Opener, PathWalk, WalkPurpose, WalkReply, WalkRequest,
};

fn text(value: &str) -> String {
    value.to_owned()
}

fn io(kind: SafeIoKind, raw_os_code: Option<i32>) -> IoError {
    IoError {
        kind,
        raw_os_code,
        text: text("os"),
    }
}

#[test]
fn io_diagnostic_keeps_path_and_stable_os_facts_without_wrapped_text() {
    let error = WindowsFsError::Io {
        operation: "open_file",
        path: text("C:\\game\r\nforged\\Data.json"),
        source: IoError {
            kind: SafeIoKind::PermissionDenied,
            raw_os_code: None,
            text: text("API_KEY_SECRET"),
        },
    };
    let diagnostic = error.safe_diagnostic(
        "file_system_operation",
        "extract",
        "unchanged",
        DiagnosticAction::CheckPathAndPermissions,
    );
    let shown = format!("{diagnostic:?}");

    assert!(!shown.contains("API_KEY_SECRET"));
    assert!(!shown.contains("\\r"));
    assert!(!shown.contains("\\n"));
    assert!(shown.contains("C:\\\\game forged\\\\Data.json"));
    assert_eq!(
        diagnostic.subject,
        DiagnosticSubject::Path {
            path: SafePath::new("C:\\game forged\\Data.json")
        }
    );
    assert_eq!(
        diagnostic.reason,
        DiagnosticReason::Io {
            operation: "open_file",
            failure: IoFailure::from_parts(SafeIoKind::PermissionDenied, None),
        }
    );
}

#[test]
fn diagnostics_tell_the_failures_apart() {
    let diagnostic = WindowsFsError::NonNtfsVolume {
        path: text("X:\\games"),
        actual: text("exFAT"),
    }
    .safe_diagnostic(
        "code",
        "stage",
        "impact",
        DiagnosticAction::CheckPathAndPermissions,
    );
    assert_eq!(
        diagnostic.reason,
        DiagnosticReason::Failure(DiagnosticFailureKind::NonNtfsVolume)
    );
    assert_eq!(diagnostic.recovery.len(), 1);
    assert_eq!(diagnostic.recovery[0].as_str(), "filesystem=exFAT");
    assert_eq!(
        diagnostic.action,
        DiagnosticAction::CheckPathAndPermissions
    );
    let cancelled = WindowsFsError::LockCancelled { path: text("a") }.safe_diagnostic(
        "code",
        "stage",
        "impact",
        DiagnosticAction::CheckPathAndPermissions,
    );
    assert_eq!(cancelled.action, DiagnosticAction::Retry);
    assert!(cancelled.recovery.is_empty());
}

#[test]
fn failures_in_words() {
    let cases = [
        (
            WindowsFsError::ReparsePoint { path: text("a") },
            "路径是被禁止的 reparse point：a",
        ),
        (
            WindowsFsError::NonLocalVolume { path: text("a") },
            "路径不位于本机固定卷：a",
        ),
        (
            WindowsFsError::NonNtfsVolume {
                path: text("a"),
                actual: text("FAT32"),
            },
            "路径不位于 NTFS 卷（实际：FAT32）：a",
        ),
        (
            WindowsFsError::CaseSensitiveDirectory { path: text("a") },
            "目录启用了大小写敏感语义：a",
        ),
        (
            WindowsFsError::LockCancelled { path: text("a") },
            "等待文件锁已取消：a",
        ),
        (
            WindowsFsError::RenameTargetExists { path: text("a") },
            "无覆盖重命名的目标已经存在：a",
        ),
        (
            WindowsFsError::FileIdentityChanged { path: text("a") },
            "待重命名对象的文件身份已经变化：a",
        ),
        (
            WindowsFsError::Cryptography {
                operation: "生成随机数",
                status: -0x3fff_ffff,
            },
            "生成随机数 失败（NTSTATUS 0xc0000001）",
        ),
        (
            WindowsFsError::Io {
                operation: "打开",
                path: text("a"),
                source: io(SafeIoKind::NotFound, Some(2)),
            },
            "打开 a 失败：os",
        ),
    ];
    for (error, expected) in cases {
        assert_eq!(error.message(), expected);
        assert_eq!(
            error.source().is_some(),
            matches!(error, WindowsFsError::Io { .. })
        );
    }
}

#[test]
fn random_bytes_become_a_version_four_uuid() {
    let bytes = [
        0x00, 0x11, 0x22, 0x33, 0x44, 0x55, 0x66, 0x77, 0x88, 0x99, 0xaa, 0xbb, 0xcc, 0xdd, 0xee,
        0xff,
    ];
    assert_eq!(
        secure_uuid_v4("生成随机数", 0, bytes),
        Ok(text("00112233-4455-4677-8899-aabbccddeeff"))
    );
    assert_eq!(
        secure_uuid_v4("生成随机数", 0, [0xff; 16]),
        Ok(text("ffffffff-ffff-4fff-bfff-ffffffffffff"))
    );
    assert_eq!(
        secure_uuid_v4("生成随机数", -1, bytes),
        Err(WindowsFsError::Cryptography {
            operation: "生成随机数",
            status: -1
        })
    );
}

#[test]
fn identities_are_compared_whole() {
    let identity = FileIdentity::from_parts(0xab, [1; 16]);
    assert_eq!(
        identity.stable_hex(),
        "00000000000000ab01010101010101010101010101010101"
    );
    assert!(identity.same_as(&FileIdentity::from_parts(0xab, [1; 16])));
    assert!(!identity.same_as(&FileIdentity::from_parts(0xac, [1; 16])));
    let mut other = [1; 16];
    other[15] = 2;
    assert!(!identity.same_as(&FileIdentity::from_parts(0xab, other)));
}

fn object(attributes: u32, is_directory: bool, identity: FileIdentity) -> OpenedObject {
    OpenedObject {
        attributes,
        is_directory,
        is_file: !is_directory,
        identity: Ok(identity),
    }
}

#[test]
fn only_the_expected_file_and_directory_may_be_deleted() {
    let expected = FileIdentity::from_parts(1, [1; 16]);
    let foreign = FileIdentity::from_parts(1, [2; 16]);
    assert_eq!(
        delete_regular_file_if_identity("f", expected, object(0, false, expected)),
        Ok(())
    );
    assert_eq!(
        delete_empty_directory_if_identity("d", expected, object(0, true, expected)),
        Ok(())
    );
    assert_eq!(
        delete_regular_file_if_identity("f", expected, object(0, false, foreign)),
        Err(WindowsFsError::FileIdentityChanged { path: text("f") })
    );
    assert!(matches!(
        delete_regular_file_if_identity("f", expected, object(0, true, expected)),
        Err(WindowsFsError::Io { operation: "确认待删除对象类型", .. })
    ));
    assert_eq!(
        delete_empty_directory_if_identity(
            "d",
            expected,
            object(FILE_ATTRIBUTE_REPARSE_POINT, true, foreign)
        ),
        Err(WindowsFsError::ReparsePoint { path: text("d") })
    );
    let unreadable = OpenedObject {
        identity: Err(WindowsFsError::ReparsePoint { path: text("other") }),
        ..object(0, false, expected)
    };
    assert_eq!(
        delete_regular_file_if_identity("f", expected, unreadable),
        Err(WindowsFsError::ReparsePoint { path: text("other") })
    );
    assert_eq!(
        rename_without_replace_if_identity("f", expected, object(0, true, expected)),
        Ok(())
    );
    assert_eq!(
        rename_without_replace_if_identity("f", expected, object(0, true, foreign)),
        Err(WindowsFsError::FileIdentityChanged { path: text("f") })
    );
}

#[test]
fn missing_directories_are_created_and_other_failures_stop() {
    assert_eq!(after_opening(Ok(())), DirectoryStep::Keep);
    let missing = WindowsFsError::Io {
        operation: "打开",
        path: text("d"),
        source: io(SafeIoKind::NotFound, Some(2)),
    };
    assert_eq!(after_opening(Err(missing)), DirectoryStep::Create);
    assert_eq!(
        after_opening(Err(WindowsFsError::ReparsePoint { path: text("d") })),
        DirectoryStep::Fail(WindowsFsError::ReparsePoint { path: text("d") })
    );
    assert_eq!(after_creating("d", Ok(())), DirectoryStep::Open);
    assert_eq!(
        after_creating("d", Err(io(SafeIoKind::AlreadyExists, Some(183)))),
        DirectoryStep::Open
    );
    assert!(matches!(
        after_creating("d", Err(io(SafeIoKind::PermissionDenied, Some(5)))),
        DirectoryStep::Fail(WindowsFsError::Io { operation: "建立目录组件", .. })
    ));
}

#[test]
fn only_fixed_ntfs_volumes_without_case_are_accepted() {
    let name = |value: &str| {
        let mut units: Vec<u16> = value.encode_utf16().collect();
        units.extend([0, 0x41, 0x42]);
        units
    };
    assert_eq!(check_drive("d", DRIVE_FIXED), Ok(()));
    assert_eq!(
        check_drive("d", 4),
        Err(WindowsFsError::NonLocalVolume { path: text("d") })
    );
    assert_eq!(check_file_system_buffer("d", &name("ntFS")), Ok(()));
    assert_eq!(
        check_file_system_buffer("d", &name("盘😀")),
        Err(WindowsFsError::NonNtfsVolume {
            path: text("d"),
            actual: text("盘😀")
        })
    );
    assert_eq!(
        check_file_system_buffer("d", &vec![0xd800, 0x4e, 0xdc00, 0xdc00, 0xd83d]),
        Err(WindowsFsError::NonNtfsVolume {
            path: text("d"),
            actual: text("\u{fffd}N\u{fffd}\u{fffd}\u{fffd}")
        })
    );
    assert_eq!(check_case("d", 2), Ok(()));
    assert_eq!(
        check_case("d", 3),
        Err(WindowsFsError::CaseSensitiveDirectory { path: text("d") })
    );
    let next = validate_local_case_insensitive_ntfs_directory(
        "d",
        VolumeQuestion::DriveType,
        VolumeAnswer::DriveType(DRIVE_FIXED),
    );
    assert_eq!(next, Ok(VolumeVerdict::Ask(VolumeQuestion::FileSystem)));
    let next = validate_local_case_insensitive_ntfs_directory(
        "d",
        VolumeQuestion::FileSystem,
        VolumeAnswer::FileSystem(name("NTFS")),
    );
    assert_eq!(
        next,
        Ok(VolumeVerdict::Ask(VolumeQuestion::CaseSensitivity))
    );
    let next = validate_local_case_insensitive_ntfs_directory(
        "d",
        VolumeQuestion::CaseSensitivity,
        VolumeAnswer::CaseSensitivity(0),
    );
    assert_eq!(next, Ok(VolumeVerdict::Accepted));
    assert!(matches!(
        validate_local_case_insensitive_ntfs_directory(
            "d",
            VolumeQuestion::FileSystem,
            VolumeAnswer::Failed(io(SafeIoKind::Other, None)),
        ),
        Err(WindowsFsError::Io { operation: "读取卷信息", .. })
    ));
}

#[test]
fn locks_are_waited_for_only_while_someone_else_has_them() {
    assert_eq!(before_lock_attempt("l", true), LockStep::Attempt);
    assert_eq!(
        before_lock_attempt("l", false),
        LockStep::Fail(WindowsFsError::LockCancelled { path: text("l") })
    );
    assert_eq!(after_lock_attempt("l", Ok(())), LockStep::Acquired);
    assert_eq!(
        after_lock_attempt("l", Err(io(SafeIoKind::Other, Some(33)))),
        LockStep::Wait
    );
    assert_eq!(
        after_lock_attempt("l", Err(io(SafeIoKind::Other, Some(32)))),
        LockStep::Wait
    );
    assert!(matches!(
        after_lock_attempt("l", Err(io(SafeIoKind::PermissionDenied, Some(5)))),
        LockStep::Fail(WindowsFsError::Io { operation: "取得文件锁", .. })
    ));
}

#[test]
fn renames_never_replace() {
    let layout = rename_layout(20, 3, 8);
    assert_eq!(layout.buffer_bytes, 28);
    assert_eq!(layout.word_count, 4);
    assert_eq!(layout.name_bytes, 6);
    assert_eq!(
        rename_failure("t", io(SafeIoKind::AlreadyExists, Some(183))),
        WindowsFsError::RenameTargetExists { path: text("t") }
    );
    assert!(matches!(
        rename_failure("t", io(SafeIoKind::PermissionDenied, Some(5))),
        WindowsFsError::Io { operation: "无覆盖重命名", .. }
    ));
}

#[test]
fn opened_objects_are_what_was_asked_for() {
    assert_eq!(share_mode(false), 3);
    assert_eq!(share_mode(true), 7);
    assert_eq!(reject_reparse(0x10, "a"), Ok(()));
    assert_eq!(
        reject_reparse(0x410, "a"),
        Err(WindowsFsError::ReparsePoint { path: text("a") })
    );
    assert_eq!(require_regular_file("读取", "a", true), Ok(()));
    assert!(matches!(
        require_regular_file("读取", "a", false),
        Err(WindowsFsError::Io { operation: "读取", .. })
    ));
    assert_eq!(require_directory("读取", "a", true), Ok(()));
    assert!(matches!(
        require_directory("读取", "a", false),
        Err(WindowsFsError::Io { operation: "读取", .. })
    ));
}

fn walk(purpose: WalkPurpose) -> PathWalk {
    let parts = ["C:\\", "C:\\a", "C:\\a\\b"];
    PathWalk::new(
        text("C:\\a\\b"),
        parts.iter().map(|part| text(part)).collect(),
        purpose,
    )
}

const CLEAN: WalkReply = WalkReply::Opened { attributes: 0x10 };

#[test]
fn pinned_paths_are_opened_from_the_root_down() {
    let mut run = walk(WalkPurpose::PinForSnapshot);
    assert_eq!(run.request(), WalkRequest::Reserve { count: 3 });
    run = run.advance(WalkReply::Done(Ok(())));
    for (path, opener) in [
        ("C:\\", Opener::Directory),
        ("C:\\a", Opener::Directory),
        ("C:\\a\\b", Opener::FileForSnapshot),
    ] {
        assert_eq!(run.request(), WalkRequest::Open { path, opener });
        run = run.advance(CLEAN);
    }
    assert_eq!(
        run.request(),
        WalkRequest::Resolve {
            path: "C:\\a\\b"
        }
    );
    run = run.advance(WalkReply::Resolved(Ok(text("\\\\?\\C:\\a\\b"))));
    assert_eq!(run.request(), WalkRequest::Nothing);
    assert_eq!(run.into_result(), Ok(text("\\\\?\\C:\\a\\b")));
}

#[test]
fn a_directory_that_appears_as_a_reparse_point_is_refused() {
    let run = walk(WalkPurpose::CreateDirectories)
        .advance(WalkReply::Done(Ok(())))
        .advance(CLEAN)
        .advance(WalkReply::OpenFailed(io(SafeIoKind::NotFound, Some(2))));
    assert_eq!(run.request(), WalkRequest::Create { path: "C:\\a" });
    let run = run.advance(WalkReply::Done(Err(io(
        SafeIoKind::AlreadyExists,
        Some(183),
    ))));
    assert_eq!(
        run.request(),
        WalkRequest::Open {
            path: "C:\\a",
            opener: Opener::Directory
        }
    );
    let result = run
        .advance(WalkReply::Opened { attributes: 0x410 })
        .into_result();
    assert_eq!(
        result,
        Err(WindowsFsError::ReparsePoint {
            path: text("C:\\a")
        })
    );
}

#[test]
fn missing_directory_suffix_is_created_one_checked_component_at_a_time() {
    let mut run = walk(WalkPurpose::CreateDirectories)
        .advance(WalkReply::Done(Ok(())))
        .advance(CLEAN);
    for path in ["C:\\a", "C:\\a\\b"] {
        run = run.advance(WalkReply::OpenFailed(io(SafeIoKind::NotFound, Some(2))));
        assert_eq!(run.request(), WalkRequest::Create { path });
        run = run.advance(WalkReply::Done(Ok(())));
        assert_eq!(
            run.request(),
            WalkRequest::Open {
                path,
                opener: Opener::Directory
            }
        );
        run = run.advance(CLEAN);
    }
    assert_eq!(run.request(), WalkRequest::Resolve { path: "C:\\a\\b" });
    run = run.advance(WalkReply::Resolved(Ok(text("\\\\?\\C:\\a\\b"))));
    assert_eq!(run.into_result(), Ok(text("\\\\?\\C:\\a\\b")));
}

#[test]
fn walks_stop_at_the_first_component_that_cannot_be_held() {
    let missing = walk(WalkPurpose::Pin)
        .advance(WalkReply::Done(Ok(())))
        .advance(CLEAN)
        .advance(CLEAN)
        .advance(WalkReply::OpenFailed(io(SafeIoKind::NotFound, Some(2))))
        .into_result();
    assert!(matches!(
        missing,
        Err(WindowsFsError::Io { operation: "打开路径", path, .. }) if path == "C:\\a\\b"
    ));
    let unreadable = walk(WalkPurpose::Pin)
        .advance(WalkReply::Done(Ok(())))
        .advance(WalkReply::AttributesFailed(io(SafeIoKind::PermissionDenied, Some(5))))
        .into_result();
    assert!(matches!(
        unreadable,
        Err(WindowsFsError::Io { operation: "读取文件属性", path, .. }) if path == "C:\\"
    ));
    let empty = PathWalk::new(text(""), Vec::new(), WalkPurpose::Pin).into_result();
    assert!(matches!(
        empty,
        Err(WindowsFsError::Io { operation: "固定路径", source, .. })
            if source.text == "路径没有可打开组件"
    ));
    assert!(matches!(
        absolute_path_failure(
            WalkPurpose::CreateDirectories,
            "a",
            io(SafeIoKind::InvalidInput, None)
        ),
        WindowsFsError::Io { operation: "建立绝对目录路径", .. }
    ));
}
