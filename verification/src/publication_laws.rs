//! What the reports of a failed publication say.

use vstd::prelude::*;
use crate::diagnostic;
use crate::diagnostic::{
    Diagnostic, DiagnosticReport, PublicationProblem, PublicationStep, RelatedFailureRelation,
    RelatedFailure, StateEffect,
};
use crate::publication;
use crate::publication::{
    DirectoryDiscardError, DirectoryPrepareError, DirectoryPublicationDiagnostic,
    DirectoryPublicationDiagnosticSource, DirectoryPublishError, DirectoryRecoveryError, ReportTree,
    StagingCleanupFailure,
};

verus! {

/// A report keeps its own problem and what belongs to it, in order; it is as severe as the
/// worst of them.
pub proof fn attached_failures_are_kept_in_order(
    report: ReportTree,
    related: Seq<(RelatedFailureRelation, ReportTree)>,
)
    ensures
        ({
            let whole = publication::attached(report, related);
            &&& whole.primary == report.primary
            &&& whole.related == report.related + related
            &&& whole.effect == report.effect || exists|i: int|
                0 <= i < related.len() && whole.effect == (#[trigger] related[i]).1.effect
            &&& report.effect is OutcomeUnknown || (exists|i: int|
                0 <= i < related.len() && (#[trigger] related[i]).1.effect is OutcomeUnknown)
                ==> whole.effect is OutcomeUnknown
            &&& whole.effect is Unchanged ==> report.effect is Unchanged && forall|i: int|
                0 <= i < related.len() ==> (#[trigger] related[i]).1.effect is Unchanged
        }),
    decreases related.len(),
{
    if related.len() == 0 {
        assert(report.related + related =~= report.related);
    } else {
        let before = related.drop_last();
        attached_failures_are_kept_in_order(report, before);
        assert(report.related + related =~= (report.related + before).push(related.last()));
        assert(forall|i: int| 0 <= i < before.len() ==> before[i] == related[i]);
        assert(related.last() == related[related.len() - 1]);
        let inner = publication::attached(report, before);
        if exists|i: int| 0 <= i < before.len() && inner.effect == (#[trigger] before[i]).1.effect {
            let i = choose|i: int|
                0 <= i < before.len() && inner.effect == (#[trigger] before[i]).1.effect;
            assert(related[i].1.effect == inner.effect);
        }
        if exists|i: int| 0 <= i < related.len() && (#[trigger] related[i]).1.effect is OutcomeUnknown {
            let i = choose|i: int|
                0 <= i < related.len() && (#[trigger] related[i]).1.effect is OutcomeUnknown;
            if i < before.len() {
                assert(before[i].1.effect is OutcomeUnknown);
            }
        }
        if publication::attached(report, related).effect is Unchanged {
            assert forall|i: int| 0 <= i < related.len() implies (#[trigger] related[i]).1.effect
                is Unchanged by {
                if i < before.len() {
                    assert(before[i].1.effect is Unchanged);
                }
            }
        }
    }
}

/// What a file system says of a failure becomes a report: its problem first, and what failed
/// around it in order.
pub proof fn file_system_failures_are_reported_in_order(
    failure: DirectoryPublicationDiagnostic,
    i: int,
)
    requires
        0 <= i < failure.related@.len(),
    ensures
        publication::reports_of(failure.related@).len() == failure.related@.len(),
        publication::reports_of(failure.related@)[i] == (
            failure.related@[i].0,
            failure.related@[i].1.report(),
        ),
        failure.report().primary == failure.primary.cause(),
        failure.report().related == publication::reports_of(failure.related@),
        failure.projected().effect == failure.effect,
        failure.projected().primary == failure.primary.cause(),
        failure.projected().related == publication::reports_of(failure.related@),
{
    lemma_reports(failure.related@, i);
    attached_failures_are_kept_in_order(
        ReportTree::single(failure.effect, failure.primary.cause()),
        publication::reports_of(failure.related@),
    );
    assert(Seq::<(RelatedFailureRelation, ReportTree)>::empty() + publication::reports_of(
        failure.related@,
    ) =~= publication::reports_of(failure.related@));
}

proof fn lemma_reports(
    related: Seq<(RelatedFailureRelation, DirectoryPublicationDiagnostic)>,
    i: int,
)
    requires
        0 <= i < related.len(),
    ensures
        publication::reports_of(related).len() == related.len(),
        publication::reports_of(related)[i] == (related[i].0, related[i].1.report()),
    decreases related.len(),
{
    let before = related.drop_last();
    if before.len() > 0 {
        let k = if i < before.len() {
            i
        } else {
            0
        };
        lemma_reports(before, k);
        assert(before[k] == related[k]);
    } else {
        assert(publication::reports_of(before).len() == 0);
    }
}

/// A report read as a tree is the report, with everything related to it in order.
pub proof fn trees_are_the_reports(report: DiagnosticReport, i: int)
    requires
        0 <= i < report.related@.len(),
    ensures
        report.tree().effect == report.effect,
        report.tree().primary == report.primary,
        report.tree().related.len() == report.related@.len(),
        report.tree().related[i] == (report.related@[i].relation, report.related@[i].report.tree()),
{
    lemma_trees(report.related@, i);
}

proof fn lemma_trees(related: Seq<RelatedFailure>, i: int)
    requires
        0 <= i < related.len(),
    ensures
        publication::trees(related).len() == related.len(),
        publication::trees(related)[i] == (related[i].relation, related[i].report.tree()),
    decreases related.len(),
{
    let before = related.drop_last();
    if before.len() > 0 {
        let k = if i < before.len() {
            i
        } else {
            0
        };
        lemma_trees(before, k);
        assert(before[k] == related[k]);
    } else {
        assert(publication::trees(before).len() == 0);
    }
}

/// What could not be removed is told with its path, its cause and the need to recover, or
/// worse.
pub proof fn residuals_are_told_with_their_path<E: DirectoryPublicationDiagnosticSource>(
    failure: StagingCleanupFailure<E>,
    report: ReportTree,
)
    requires
        failure.is_reported_by(report),
    ensures
        ({
            let told = failure.reason().projection(PublicationStep::CleanupResidual);
            &&& report.primary matches Diagnostic::Publication(issue)
            &&& issue.step is CleanupResidual
            &&& issue.problem matches PublicationProblem::CleanupFailed { residual_path, cause }
            &&& residual_path@ == diagnostic::single_line(
                diagnostic::public_form(failure.residual()),
            )
            &&& cause.cause() == told.primary
            &&& report.related == told.related
            &&& report.effect is RecoveryRequired || report.effect is OutcomeUnknown
            &&& told.effect is OutcomeUnknown ==> report.effect is OutcomeUnknown
        }),
{
    let told = failure.reason().projection(PublicationStep::CleanupResidual);
    let own = ReportTree::single(StateEffect::RecoveryRequired.worse(told.effect), report.primary);
    attached_failures_are_kept_in_order(own, told.related);
    publication::attached_reports_never_understate(own, told.related);
    assert(Seq::<(RelatedFailureRelation, ReportTree)>::empty() + told.related =~= told.related);
}

/// Whether a path in a diagnostic stands for a path.
pub open spec fn shows(shown: Seq<char>, path: Seq<char>) -> bool {
    shown == diagnostic::single_line(diagnostic::public_form(path))
}

/// A failed publication is told as what it is: where it was to appear, what it left behind,
/// and at which step. Only one that left residuals had been published.
pub proof fn publications_are_told_as_what_they_are<E: DirectoryPublicationDiagnosticSource>(
    error: DirectoryPublishError<E>,
    report: DiagnosticReport,
)
    requires
        error.is_reported_by(report),
    ensures
        ({
            &&& report.primary matches Diagnostic::Publication(issue)
            &&& issue.step is Finalize <==> error is PublishedWithResiduals
            &&& issue.step is Publish <==> !(error is PublishedWithResiduals)
            &&& match error {
                DirectoryPublishError::TargetAlreadyExists { target_root, .. } => issue.problem
                    matches PublicationProblem::TargetAlreadyExists { output_root } && shows(
                    output_root@,
                    target_root@,
                ),
                DirectoryPublishError::TargetMissing { target_root, .. } => issue.problem
                    matches PublicationProblem::TargetMissing { output_root } && shows(
                    output_root@,
                    target_root@,
                ),
                DirectoryPublishError::TargetNotDirectory { target_root, .. } => issue.problem
                    matches PublicationProblem::TargetNotDirectory { output_root } && shows(
                    output_root@,
                    target_root@,
                ),
                DirectoryPublishError::NotAttempted { target_root, source, .. } => issue.problem
                    matches PublicationProblem::NotAttempted { output_root, cause } && shows(
                    output_root@,
                    target_root@,
                ) && cause.cause() == source.projection(PublicationStep::Publish).primary,
                DirectoryPublishError::NotPublished { target_root, source, .. } => issue.problem
                    matches PublicationProblem::NotPublished { output_root, cause } && shows(
                    output_root@,
                    target_root@,
                ) && cause.cause() == source.projection(PublicationStep::Publish).primary,
                DirectoryPublishError::PublishedWithResiduals {
                    target_root,
                    residual_path: residual,
                    source,
                } => issue.problem matches PublicationProblem::PublishedFinalizationFailed {
                    output_root,
                    residual_path,
                    cause,
                } && shows(output_root@, target_root@) && shows(residual_path@, residual@)
                    && cause.cause() == source.projection(PublicationStep::CleanupResidual).primary,
                DirectoryPublishError::RecoveryRequired {
                    target_root,
                    recovery_artifacts: artifacts,
                    source,
                } => issue.problem matches PublicationProblem::RecoveryRequired {
                    output_root,
                    recovery_artifacts,
                    cause,
                } && shows(output_root@, target_root@) && recovery_artifacts@.len() == artifacts@.len()
                    && (forall|i: int|
                    0 <= i < artifacts@.len() ==> shows(
                        (#[trigger] recovery_artifacts@[i])@,
                        artifacts@[i]@,
                    )) && cause.cause() == source.projection(PublicationStep::Recover).primary,
                DirectoryPublishError::OutcomeUnknown {
                    target_root,
                    recovery_artifacts: artifacts,
                    source,
                } => issue.problem matches PublicationProblem::OutcomeUnknown {
                    output_root,
                    recovery_artifacts,
                    cause,
                } && shows(output_root@, target_root@) && recovery_artifacts@.len() == artifacts@.len()
                    && (forall|i: int|
                    0 <= i < artifacts@.len() ==> shows(
                        (#[trigger] recovery_artifacts@[i])@,
                        artifacts@[i]@,
                    )) && cause.cause() == source.projection(PublicationStep::Recover).primary,
            }
        }),
{
}

/// What a failed publication leaves behind: a target that was refused is unchanged if the
/// cleanup did not fail, and what is known of the outcome is never told as better than it is.
pub proof fn publications_tell_what_they_left<E: DirectoryPublicationDiagnosticSource>(
    error: DirectoryPublishError<E>,
    report: DiagnosticReport,
)
    requires
        error.is_reported_by(report),
    ensures
        error matches DirectoryPublishError::TargetAlreadyExists { cleanup_failure, .. } ==> (
        cleanup_failure is None ==> report.effect is Unchanged && report.tree().related.len() == 0),
        error matches DirectoryPublishError::TargetMissing { cleanup_failure, .. } ==> (
        cleanup_failure is None ==> report.effect is Unchanged && report.tree().related.len() == 0),
        error matches DirectoryPublishError::TargetNotDirectory { cleanup_failure, .. } ==> (
        cleanup_failure is None ==> report.effect is Unchanged && report.tree().related.len() == 0),
        error is OutcomeUnknown ==> report.effect is OutcomeUnknown,
        error is RecoveryRequired ==> report.effect is RecoveryRequired || report.effect
            is OutcomeUnknown,
        error is PublishedWithResiduals ==> !(report.effect is Unchanged) && !(report.effect
            is ProgressPreserved),
        error matches DirectoryPublishError::NotPublished { source, cleanup_failure, .. } ==> (
        cleanup_failure is None ==> report.tree().related == source.projection(
            PublicationStep::Publish,
        ).related && (report.effect is Unchanged ==> source.projection(
            PublicationStep::Publish,
        ).effect is Unchanged)),
        error matches DirectoryPublishError::NotAttempted { source, cleanup_failure, .. } ==> (
        cleanup_failure is None ==> report.tree().related == source.projection(
            PublicationStep::Publish,
        ).related && (report.effect is Unchanged ==> source.projection(
            PublicationStep::Publish,
        ).effect is Unchanged)),
        error matches DirectoryPublishError::PublishedWithResiduals { source, .. } ==> report.tree().related
            == source.projection(PublicationStep::CleanupResidual).related,
        error matches DirectoryPublishError::RecoveryRequired { source, .. } ==> report.tree().related
            == source.projection(PublicationStep::Recover).related,
        error matches DirectoryPublishError::OutcomeUnknown { source, .. } ==> report.tree().related
            == source.projection(PublicationStep::Recover).related,
{
    publication::publish_reports_never_understate(error, report);
    let empty = Seq::<(RelatedFailureRelation, ReportTree)>::empty();
    if let Some(source) = error.reason() {
        let told = source.projection(error.failed_step());
        let own = ReportTree::single(error.own_effect().worse(told.effect), report.primary);
        attached_failures_are_kept_in_order(own, told.related);
        publication::attached_reports_never_understate(own, told.related);
        assert(empty + told.related =~= told.related);
    }
}

/// Whether an error holds a failed cleanup.
pub open spec fn failed_to_clean_up<E>(
    error: DirectoryPublishError<E>,
    failure: StagingCleanupFailure<E>,
) -> bool {
    match error {
        DirectoryPublishError::TargetAlreadyExists { cleanup_failure: Some(held), .. } => held
            == failure,
        DirectoryPublishError::TargetMissing { cleanup_failure: Some(held), .. } => held == failure,
        DirectoryPublishError::TargetNotDirectory { cleanup_failure: Some(held), .. } => held
            == failure,
        DirectoryPublishError::NotAttempted { cleanup_failure: Some(held), .. } => held == failure,
        DirectoryPublishError::NotPublished { cleanup_failure: Some(held), .. } => held == failure,
        _ => false,
    }
}

/// A failed cleanup after a failed publication is told behind it, last, and makes a recovery
/// necessary.
pub proof fn failed_cleanups_are_told_last<E: DirectoryPublicationDiagnosticSource>(
    error: DirectoryPublishError<E>,
    failure: StagingCleanupFailure<E>,
    report: DiagnosticReport,
)
    requires
        error.is_reported_by(report),
        failed_to_clean_up(error, failure),
    ensures
        ({
            let related = report.tree().related;
            &&& related.len() > 0
            &&& related[related.len() - 1].0 is Cleanup
            &&& failure.is_reported_by(related[related.len() - 1].1)
            &&& report.effect is RecoveryRequired || report.effect is OutcomeUnknown
        }),
{
    publication::publish_reports_never_understate(error, report);
}

/// A candidate that was not prepared is told with its target and its cause; a residual is
/// named as the candidate, told last, and makes a recovery necessary.
pub proof fn unprepared_candidates_are_told<E: DirectoryPublicationDiagnosticSource>(
    error: DirectoryPrepareError<E>,
    report: DiagnosticReport,
)
    requires
        error.is_reported_by(report),
    ensures
        ({
            let DirectoryPrepareError::NotPrepared { target_root, source, cleanup_failure } = error;
            let told = source.projection(PublicationStep::PrepareCandidate);
            let related = report.tree().related;
            &&& report.primary matches Diagnostic::Publication(issue)
            &&& issue.step is PrepareCandidate
            &&& issue.problem matches PublicationProblem::PrepareFailed {
                output_root,
                candidate_root,
                cause,
            }
            &&& shows(output_root@, target_root@)
            &&& cause.cause() == told.primary
            &&& candidate_root is Some <==> cleanup_failure is Some
            &&& cleanup_failure matches Some(failure) ==> {
                &&& shows(candidate_root->0@, failure.residual())
                &&& related.len() == told.related.len() + 1
                &&& related[related.len() - 1].0 is Cleanup
                &&& failure.is_reported_by(related[related.len() - 1].1)
                &&& report.effect is RecoveryRequired || report.effect is OutcomeUnknown
            }
            &&& cleanup_failure is None ==> related == told.related
            &&& told.effect is OutcomeUnknown ==> report.effect is OutcomeUnknown
            &&& report.effect is Unchanged ==> told.effect is Unchanged
        }),
{
    let DirectoryPrepareError::NotPrepared { target_root, source, cleanup_failure } = error;
    let told = source.projection(PublicationStep::PrepareCandidate);
    let own = ReportTree::single(told.effect, report.primary);
    attached_failures_are_kept_in_order(own, told.related);
    assert(Seq::<(RelatedFailureRelation, ReportTree)>::empty() + told.related =~= told.related);
    if let Some(failure) = cleanup_failure {
        let inner = choose|inner: ReportTree| #[trigger]
            failure.is_reported_by(inner) && report.tree() == publication::attached(
                own,
                told.related,
            ).with(RelatedFailureRelation::Cleanup, inner);
        residuals_are_told_with_their_path(failure, inner);
    }
}

/// A target that could not be recovered, and a candidate that could not be discarded, are
/// told with their path and their cause, and with the need to recover, or worse.
pub proof fn failed_recoveries_and_discards_are_told<E: DirectoryPublicationDiagnosticSource>(
    recovery: DirectoryRecoveryError<E>,
    discard: DirectoryDiscardError<E>,
    report: DiagnosticReport,
)
    ensures
        recovery.is_reported_by(report) ==> ({
            let told = recovery.reason().projection(PublicationStep::Recover);
            &&& report.primary matches Diagnostic::Publication(issue)
            &&& issue.step is Recover
            &&& issue.problem matches PublicationProblem::RecoveryFailed { output_root, cause }
            &&& shows(output_root@, recovery.target())
            &&& cause.cause() == told.primary
            &&& report.tree().related == told.related
            &&& report.effect is RecoveryRequired || report.effect is OutcomeUnknown
            &&& told.effect is OutcomeUnknown ==> report.effect is OutcomeUnknown
        }),
        discard.is_reported_by(report) ==> ({
            let told = discard.reason().projection(PublicationStep::DiscardCandidate);
            &&& report.primary matches Diagnostic::Publication(issue)
            &&& issue.step is DiscardCandidate
            &&& issue.problem matches PublicationProblem::DiscardFailed { candidate_root, cause }
            &&& shows(candidate_root@, discard.candidate())
            &&& cause.cause() == told.primary
            &&& report.tree().related == told.related
            &&& report.effect is RecoveryRequired || report.effect is OutcomeUnknown
            &&& told.effect is OutcomeUnknown ==> report.effect is OutcomeUnknown
        }),
{
    let empty = Seq::<(RelatedFailureRelation, ReportTree)>::empty();
    let first = recovery.reason().projection(PublicationStep::Recover);
    let own = ReportTree::single(StateEffect::RecoveryRequired.worse(first.effect), report.primary);
    attached_failures_are_kept_in_order(own, first.related);
    publication::attached_reports_never_understate(own, first.related);
    assert(empty + first.related =~= first.related);
    let second = discard.reason().projection(PublicationStep::DiscardCandidate);
    let other = ReportTree::single(
        StateEffect::RecoveryRequired.worse(second.effect),
        report.primary,
    );
    attached_failures_are_kept_in_order(other, second.related);
    publication::attached_reports_never_understate(other, second.related);
    assert(empty + second.related =~= second.related);
}

} // verus!
