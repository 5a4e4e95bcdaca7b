use att_runtime::diagnostic::{
    Diagnostic, FileSystemIssue, FileSystemOperation, FileSystemProblem, PublicationBackendCause,
    PublicationIssue, PublicationProblem, PublicationStep, RelatedFailureRelation, SafePath,
    StateEffect,
};
use att_runtime::publication::{
    display_paths, DirectoryDiscardError, DirectoryPrepareError, DirectoryPublicationDiagnostic,
    DirectoryPublicationDiagnosticSource, DirectoryPublishError, DirectoryRecoveryError, Projection,
    FailureCause, StagingCleanupFailure,
};

fn text(value: &str) -> String {
    value.to_owned()
}

#[test]
fn displayed_path_lists_remove_windows_verbatim_prefixes() {
    assert_eq!(
        display_paths(&vec![
            text(r"\\?\C:\games\sample"),
            text(r"\\?\UNC\server\share\sample"),
        ]),
        r"C:\games\sample、\\server\share\sample"
    );
    assert_eq!(display_paths(&Vec::new()), "无已知路径");
}

#[derive(Debug)]
struct TestError(&'static str);

fn file_system(operation: FileSystemOperation) -> Diagnostic {
    Diagnostic::FileSystem(FileSystemIssue {
        operation,
        problem: FileSystemProblem::ExecutorClosed,
    })
}

fn cause(operation: FileSystemOperation) -> PublicationBackendCause {
    PublicationBackendCause::new(file_system(operation))
}

impl DirectoryPublicationDiagnosticSource for TestError {
    fn projection(&self, _step: PublicationStep) -> Projection {
        unreachable!()
    }

    fn publication_diagnostic(&self, step: PublicationStep) -> DirectoryPublicationDiagnostic {
        let operation = match step {
            PublicationStep::Recover => FileSystemOperation::RecoverTarget,
            PublicationStep::PrepareCandidate => FileSystemOperation::PrepareCandidate,
            PublicationStep::Publish | PublicationStep::Finalize => FileSystemOperation::Rename,
            PublicationStep::DiscardCandidate | PublicationStep::CleanupResidual => {
                FileSystemOperation::Remove
            }
        };
        let projection = DirectoryPublicationDiagnostic::new(cause(operation));
        if self.0 == "backend rollback failed" {
            projection.with_related(
                RelatedFailureRelation::Rollback,
                DirectoryPublicationDiagnostic::new(cause(FileSystemOperation::Remove)),
            )
        } else {
            projection
        }
    }
}

#[test]
fn published_residual_wire_keeps_output_residual_and_cleanup_relation() {
    let error = DirectoryPublishError::PublishedWithResiduals {
        target_root: text("D:/output/game"),
        residual_path: text("D:/output/.directory-publish/game/backup"),
        source: TestError("must not enter wire"),
    };

    let report = error.diagnostic_report();
    assert_eq!(report.effect, StateEffect::AppliedFinalizationFailed);
    assert_eq!(
        report.primary,
        Diagnostic::Publication(PublicationIssue {
            step: PublicationStep::Finalize,
            problem: PublicationProblem::PublishedFinalizationFailed {
                output_root: SafePath::new("D:/output/game"),
                residual_path: SafePath::new("D:/output/.directory-publish/game/backup"),
                cause: cause(FileSystemOperation::Remove),
            },
        })
    );
    assert!(report.related.is_empty());
    assert!(!format!("{report:?}").contains("must not enter wire"));
}

#[test]
fn unpublished_main_and_cleanup_failures_are_one_recursive_report() {
    let error = DirectoryPublishError::NotPublished {
        target_root: text("D:/output/game"),
        source: TestError("publish failed"),
        cleanup_failure: Some(StagingCleanupFailure::new(
            text("D:/output/.directory-publish/game/stage"),
            TestError("cleanup failed"),
        )),
    };
    let report = error.diagnostic_report();

    assert_eq!(report.effect, StateEffect::RecoveryRequired);
    assert_eq!(
        report.primary,
        Diagnostic::Publication(PublicationIssue {
            step: PublicationStep::Publish,
            problem: PublicationProblem::NotPublished {
                output_root: SafePath::new("D:/output/game"),
                cause: cause(FileSystemOperation::Rename),
            },
        })
    );
    assert_eq!(report.related.len(), 1);
    assert_eq!(report.related[0].relation, RelatedFailureRelation::Cleanup);
    assert_eq!(
        report.related[0].report.primary,
        Diagnostic::Publication(PublicationIssue {
            step: PublicationStep::CleanupResidual,
            problem: PublicationProblem::CleanupFailed {
                residual_path: SafePath::new("D:/output/.directory-publish/game/stage"),
                cause: cause(FileSystemOperation::Remove),
            },
        })
    );
    assert!(report.related[0].report.related.is_empty());
    let shown = format!("{report:?}");
    assert!(!shown.contains("publish failed"));
    assert!(!shown.contains("cleanup failed"));
}

#[test]
fn backend_related_failure_is_lifted_out_of_publication_issue() {
    let error = DirectoryPublishError::NotPublished {
        target_root: text("D:/output/game"),
        source: TestError("backend rollback failed"),
        cleanup_failure: None,
    };
    let report = error.diagnostic_report();

    assert_eq!(report.related[0].relation, RelatedFailureRelation::Rollback);
    assert_eq!(
        report.related[0].report.primary,
        file_system(FileSystemOperation::Remove)
    );
    assert!(report.related[0].report.related.is_empty());
}

fn cause_text(error: &DirectoryPublishError<TestError>) -> Option<String> {
    error.source().map(|cause| match cause {
        FailureCause::Source(source) => source.0.to_owned(),
        FailureCause::Cleanup(failure) => failure.message(failure.source().0),
    })
}

#[test]
fn known_unpublished_states_preserve_candidate_cleanup_failure() {
    let cleanup = || {
        Some(StagingCleanupFailure::new(
            text("target.stage"),
            TestError("cleanup failed"),
        ))
    };
    let errors = [
        DirectoryPublishError::TargetAlreadyExists {
            target_root: text("target"),
            cleanup_failure: cleanup(),
        },
        DirectoryPublishError::TargetMissing {
            target_root: text("target"),
            cleanup_failure: cleanup(),
        },
        DirectoryPublishError::TargetNotDirectory {
            target_root: text("target"),
            cleanup_failure: cleanup(),
        },
    ];

    for error in errors {
        let display = error.message("", "cleanup failed");
        assert!(display.contains("target"));
        assert!(display.contains("target.stage"));
        assert!(display.contains("cleanup failed"));
        assert_eq!(
            cause_text(&error),
            Some("无法清理目录 target.stage：cleanup failed".to_owned())
        );
    }

    let error = DirectoryPublishError::NotPublished {
        target_root: text("target"),
        source: TestError("swap failed"),
        cleanup_failure: cleanup(),
    };
    assert!(error
        .message("swap failed", "cleanup failed")
        .contains("target.stage"));
    assert_eq!(cause_text(&error), Some("swap failed".to_owned()));
}

#[test]
fn terminal_errors_report_published_and_unknown_outcomes_without_collapsing_them() {
    let published = DirectoryPublishError::PublishedWithResiduals {
        target_root: text("target"),
        residual_path: text("target.backup"),
        source: TestError("backup cleanup failed"),
    };
    let display = published.message("backup cleanup failed", "");
    assert!(display.contains("已发布"));
    assert!(display.contains("target.backup"));

    let unknown = DirectoryPublishError::OutcomeUnknown {
        target_root: text("target"),
        recovery_artifacts: vec![text("target.stage"), text("target.backup")],
        source: TestError("recovery failed"),
    };
    let display = unknown.message("recovery failed", "");
    assert!(display.contains("结果未知"));
    assert!(display.contains("target.stage"));
    assert!(display.contains("target.backup"));
    assert_eq!(cause_text(&unknown), Some("recovery failed".to_owned()));
    assert_eq!(
        unknown.diagnostic_report().effect,
        StateEffect::OutcomeUnknown
    );
}

#[test]
fn prepare_and_discard_errors_keep_the_exact_residual_paths() {
    let prepare = DirectoryPrepareError::NotPrepared {
        target_root: text("target"),
        source: TestError("copy failed"),
        cleanup_failure: Some(StagingCleanupFailure::new(
            text("target.stage"),
            TestError("cleanup failed"),
        )),
    };
    assert!(prepare
        .message("copy failed", "cleanup failed")
        .contains("target.stage"));
    assert_eq!(prepare.source().0, "copy failed");

    let discard = DirectoryDiscardError::new(text("target.stage"), TestError("delete failed"));
    assert_eq!(discard.staging_root(), "target.stage");
    assert_eq!(discard.source().0, "delete failed");
    assert!(discard.message("delete failed").contains("target.stage"));
}

#[test]
fn prepare_recovery_and_discard_reports_name_their_step() {
    let prepare = DirectoryPrepareError::NotPrepared {
        target_root: text("target"),
        source: TestError("copy failed"),
        cleanup_failure: Some(StagingCleanupFailure::new(
            text("target.stage"),
            TestError("cleanup failed"),
        )),
    };
    let report = prepare.diagnostic_report();
    assert!(matches!(
        report.primary,
        Diagnostic::Publication(PublicationIssue {
            step: PublicationStep::PrepareCandidate,
            problem: PublicationProblem::PrepareFailed { .. },
        })
    ));
    assert_eq!(report.effect, StateEffect::RecoveryRequired);
    assert_eq!(report.related.len(), 1);

    let recovery = DirectoryRecoveryError::new(text("target"), TestError("backend rollback failed"));
    assert_eq!(recovery.source_error().0, "backend rollback failed");
    let report = recovery.diagnostic_report();
    assert!(matches!(
        report.primary,
        Diagnostic::Publication(PublicationIssue {
            step: PublicationStep::Recover,
            problem: PublicationProblem::RecoveryFailed { .. },
        })
    ));
    assert_eq!(report.related[0].relation, RelatedFailureRelation::Rollback);

    let discard = DirectoryDiscardError::new(text("target.stage"), TestError("delete failed"));
    assert!(matches!(
        discard.diagnostic_report().primary,
        Diagnostic::Publication(PublicationIssue {
            step: PublicationStep::DiscardCandidate,
            problem: PublicationProblem::DiscardFailed { .. },
        })
    ));
}

#[test]
fn a_report_is_never_milder_than_what_is_attached_to_it() {
    let error = DirectoryPublishError::TargetMissing {
        target_root: text("target"),
        cleanup_failure: Some(StagingCleanupFailure::new(
            text("target.stage"),
            TestError("cleanup failed"),
        )),
    };
    let report = error.diagnostic_report();
    assert_eq!(report.effect, StateEffect::RecoveryRequired);
    assert_eq!(
        StateEffect::Unchanged.strongest(StateEffect::OutcomeUnknown),
        StateEffect::OutcomeUnknown
    );
}
