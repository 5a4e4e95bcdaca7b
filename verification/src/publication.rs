//! How preparing, publishing, discarding and recovering a directory can end, and how each
//! end is reported.

use vstd::prelude::*;
use vstd::string::*;
use crate::diagnostic;
use crate::diagnostic::{
    public_path, Diagnostic, DiagnosticReport, PublicationBackendCause, PublicationIssue,
    PublicationProblem, PublicationStep, RelatedFailure, RelatedFailureRelation, SafePath,
    StateEffect,
};
use crate::text;
use crate::vectors::in_reverse;

verus! {

/// A report as a tree of effects and problems.
pub ghost struct ReportTree {
    pub effect: StateEffect,
    pub primary: Diagnostic,
    pub related: Seq<(RelatedFailureRelation, ReportTree)>,
}

impl ReportTree {
    /// A report of one problem.
    pub open spec fn single(effect: StateEffect, primary: Diagnostic) -> Self {
        ReportTree { effect, primary, related: Seq::empty() }
    }

    /// The report with one more related failure; it is at least as severe as that.
    pub open spec fn with(self, relation: RelatedFailureRelation, report: ReportTree) -> Self {
        ReportTree {
            effect: self.effect.worse(report.effect),
            related: self.related.push((relation, report)),
            ..self
        }
    }
}

impl DiagnosticReport {
    pub open spec fn tree(self) -> ReportTree
        decreases self,
    {
        ReportTree {
            effect: self.effect,
            primary: self.primary,
            related: trees(self.related@),
        }
    }
}

pub open spec fn trees(related: Seq<RelatedFailure>) -> Seq<(RelatedFailureRelation, ReportTree)>
    decreases related,
{
    if related.len() == 0 {
        Seq::empty()
    } else {
        trees(related.drop_last()).push((related.last().relation, related.last().report.tree()))
    }
}

/// What a file system knows of a failure during publication.
#[derive(Debug)]
pub struct DirectoryPublicationDiagnostic {
    pub effect: StateEffect,
    pub primary: PublicationBackendCause,
    pub related: Vec<(RelatedFailureRelation, DirectoryPublicationDiagnostic)>,
}

impl DirectoryPublicationDiagnostic {
    /// The failure as a report of its own.
    pub open spec fn report(self) -> ReportTree
        decreases self,
    {
        attached(ReportTree::single(self.effect, self.primary.cause()), reports_of(self.related@))
    }

    /// What reports are made of.
    pub open spec fn projected(self) -> Projection {
        Projection {
            effect: self.effect,
            primary: self.primary.cause(),
            related: reports_of(self.related@),
        }
    }

    pub fn new(primary: PublicationBackendCause) -> (diagnostic: Self)
        ensures
            diagnostic.effect == StateEffect::Unchanged,
            diagnostic.primary == primary,
            diagnostic.related@.len() == 0,
    {
        DirectoryPublicationDiagnostic { effect: StateEffect::Unchanged, primary, related: Vec::new() }
    }

    pub fn with_effect(self, effect: StateEffect) -> (diagnostic: Self)
        ensures
            diagnostic.effect == effect,
            diagnostic.primary == self.primary,
            diagnostic.related == self.related,
    {
        DirectoryPublicationDiagnostic { effect, primary: self.primary, related: self.related }
    }

    pub fn with_related(self, relation: RelatedFailureRelation, related: Self) -> (diagnostic: Self)
        ensures
            diagnostic.effect == self.effect,
            diagnostic.primary == self.primary,
            diagnostic.related@ == self.related@.push((relation, related)),
    {
        let mut all = self.related;
        all.push((relation, related));
        DirectoryPublicationDiagnostic { effect: self.effect, primary: self.primary, related: all }
    }

    pub fn into_parts(self) -> (parts: (
        StateEffect,
        PublicationBackendCause,
        Vec<(RelatedFailureRelation, DirectoryPublicationDiagnostic)>,
    ))
        ensures
            parts == (self.effect, self.primary, self.related),
    {
        (self.effect, self.primary, self.related)
    }
}

/// What a file system knows of a failure, with what failed underneath as reports.
#[verifier::ext_equal]
pub ghost struct Projection {
    pub effect: StateEffect,
    pub primary: Diagnostic,
    pub related: Seq<(RelatedFailureRelation, ReportTree)>,
}

/// What failed underneath, as reports.
pub open spec fn reports_of(
    related: Seq<(RelatedFailureRelation, DirectoryPublicationDiagnostic)>,
) -> Seq<(RelatedFailureRelation, ReportTree)>
    decreases related,
{
    if related.len() == 0 {
        Seq::empty()
    } else {
        reports_of(related.drop_last()).push((related.last().0, related.last().1.report()))
    }
}

/// A report with the failures that a file system found around it.
pub open spec fn attached(
    report: ReportTree,
    related: Seq<(RelatedFailureRelation, ReportTree)>,
) -> ReportTree
    decreases related.len(),
{
    if related.len() == 0 {
        report
    } else {
        attached(report, related.drop_last()).with(related.last().0, related.last().1)
    }
}

/// Adding a related failure to a report adds its tree.
proof fn lemma_tree_with(
    before: DiagnosticReport,
    relation: RelatedFailureRelation,
    related: DiagnosticReport,
    after: DiagnosticReport,
)
    requires
        after.effect == before.effect.worse(related.effect),
        after.primary == before.primary,
        after.related@ == before.related@.push(RelatedFailure { relation, report: related }),
    ensures
        after.tree() == before.tree().with(relation, related.tree()),
{
    assert(after.related@.drop_last() =~= before.related@);
    assert(after.related@.last() == (RelatedFailure { relation, report: related }));
    reveal_with_fuel(DiagnosticReport::tree, 2);
    reveal_with_fuel(trees, 2);
}

/// Adds what else failed underneath, each with all that failed underneath it.
pub fn attach_backend_related(
    report: DiagnosticReport,
    related: Vec<(RelatedFailureRelation, DirectoryPublicationDiagnostic)>,
) -> (result: DiagnosticReport)
    ensures
        result.tree() == attached(report.tree(), reports_of(related@)),
        result.primary == report.primary,
    decreases related,
{
    let ghost all = related@;
    let ghost base = report.tree();
    let ghost primary = report.primary;
    let mut waiting = in_reverse(related);
    let mut result = report;
    assert(all.take(0).len() == 0);
    while waiting.len() > 0
        invariant
            related@ == all,
            waiting.len() <= all.len(),
            forall|k: int|
                0 <= k < waiting.len() ==> (#[trigger] waiting@[k]) == all[all.len() - 1 - k],
            result.tree() == attached(base, reports_of(all.take(all.len() - waiting.len()))),
            result.primary == primary,
        decreases waiting.len(),
    {
        let ghost done = all.len() - waiting.len();
        if let Some((relation, projection)) = waiting.pop() {
            proof {
                assert((relation, projection) == all[done]);
                assert(decreases_to!(related => related@));
                assert(decreases_to!(related@ => related@[done]));
                assert(decreases_to!(related@[done] => related@[done].1));
                assert(decreases_to!(related@[done].1 => related@[done].1.related));
            }
            let ghost child = projection;
            let (effect, cause, nested) = projection.into_parts();
            let nested_report = DiagnosticReport::new(effect, cause.into_diagnostic());
            assert(nested_report.tree() == ReportTree::single(effect, child.primary.cause()));
            let related_report = attach_backend_related(nested_report, nested);
            let ghost before = result;
            let ghost added = related_report;
            result = result.with_related(relation, related_report);
            proof {
                lemma_tree_with(before, relation, added, result);
                assert(child.report() == added.tree());
                assert(all.take(done + 1).drop_last() =~= all.take(done));
                assert(all.take(done + 1).last() == all[done]);
                let earlier = reports_of(all.take(done));
                assert(reports_of(all.take(done + 1)) == earlier.push((relation, child.report())));
                assert(earlier.push((relation, child.report())).drop_last() =~= earlier);
            }
        }
    }
    assert(all.take(all.len() as int) =~= all);
    result
}

/// A file system that can say what went wrong in a step of a publication.
pub trait DirectoryPublicationDiagnosticSource {
    /// What it says of the step.
    spec fn projection(&self, step: PublicationStep) -> Projection;

    fn publication_diagnostic(&self, step: PublicationStep) -> (diagnostic:
        DirectoryPublicationDiagnostic)
        ensures
            diagnostic.projected() == self.projection(step),
    ;
}

/// What stays behind when a staged or recovered directory cannot be removed.
#[derive(Debug)]
pub struct StagingCleanupFailure<E> {
    residual_path: String,
    source: E,
}

impl<E> StagingCleanupFailure<E> {
    pub closed spec fn residual(&self) -> Seq<char> {
        self.residual_path@
    }

    pub closed spec fn reason(&self) -> E {
        self.source
    }

    pub fn new(residual_path: String, source: E) -> (failure: Self)
        ensures
            failure.residual() == residual_path@,
            failure.reason() == source,
    {
        StagingCleanupFailure { residual_path, source }
    }

    pub fn residual_path(&self) -> (path: &str)
        ensures
            path@ == self.residual(),
    {
        self.residual_path.as_str()
    }

    pub fn source(&self) -> (source: &E)
        ensures
            *source == self.reason(),
    {
        &self.source
    }

    pub open spec fn text(&self, source: Seq<char>) -> Seq<char> {
        "无法清理目录 "@ + self.residual() + "："@ + source
    }

    /// The failure in words; `source` is its source in words.
    pub fn message(&self, source: &str) -> (message: String)
        ensures
            message@ == self.text(source@),
    {
        String::from_str("无法清理目录 ").concat(self.residual_path.as_str()).concat("：").concat(source)
    }
}

impl<E: DirectoryPublicationDiagnosticSource> StagingCleanupFailure<E> {
    /// Whether `report` tells of this failure.
    pub open spec fn is_reported_by(&self, report: ReportTree) -> bool {
        let projection = self.reason().projection(PublicationStep::CleanupResidual);
        &&& report == attached(
            ReportTree::single(
                StateEffect::RecoveryRequired.worse(projection.effect),
                report.primary,
            ),
            projection.related,
        )
        &&& report.primary matches Diagnostic::Publication(issue)
        &&& issue.step == PublicationStep::CleanupResidual
        &&& issue.problem matches PublicationProblem::CleanupFailed { residual_path, cause }
        &&& residual_path@ == diagnostic::safe_path(self.residual())
        &&& cause.cause() == projection.primary
    }
}

/// Whether `after` is `before` with the failed cleanup, if one failed.
pub open spec fn with_cleanup<E: DirectoryPublicationDiagnosticSource>(
    before: ReportTree,
    cleanup: Option<StagingCleanupFailure<E>>,
    after: ReportTree,
) -> bool {
    match cleanup {
        None => after == before,
        Some(failure) => exists|report: ReportTree| #[trigger]
            failure.is_reported_by(report) && after == before.with(
                RelatedFailureRelation::Cleanup,
                report,
            ),
    }
}

/// A report with one publication issue.
pub fn publication_report(effect: StateEffect, step: PublicationStep, problem: PublicationProblem) -> (report:
    DiagnosticReport)
    ensures
        report.primary == Diagnostic::Publication(PublicationIssue { step, problem }),
        report.tree() == ReportTree::single(effect, report.primary),
{
    let report = DiagnosticReport::new(
        effect,
        Diagnostic::Publication(PublicationIssue { step, problem }),
    );
    assert(report.tree().related =~= Seq::<(RelatedFailureRelation, ReportTree)>::empty());
    report
}

/// The report of a cleanup that failed.
pub fn cleanup_report<E: DirectoryPublicationDiagnosticSource>(failure: &StagingCleanupFailure<E>) -> (report:
    DiagnosticReport)
    ensures
        failure.is_reported_by(report.tree()),
{
    let projection = failure.source().publication_diagnostic(PublicationStep::CleanupResidual);
    let (source_effect, cause, related) = projection.into_parts();
    attach_backend_related(
        publication_report(
            StateEffect::RecoveryRequired.strongest(source_effect),
            PublicationStep::CleanupResidual,
            PublicationProblem::CleanupFailed {
                residual_path: SafePath::new(failure.residual_path()),
                cause,
            },
        ),
        related,
    )
}

fn add_cleanup<E: DirectoryPublicationDiagnosticSource>(
    report: DiagnosticReport,
    cleanup_failure: &Option<StagingCleanupFailure<E>>,
) -> (result: DiagnosticReport)
    ensures
        with_cleanup(report.tree(), *cleanup_failure, result.tree()),
        result.primary == report.primary,
{
    match cleanup_failure {
        None => report,
        Some(failure) => {
            let related = cleanup_report(failure);
            let ghost before = report;
            let ghost added = related;
            let result = report.with_related(RelatedFailureRelation::Cleanup, related);
            proof {
                lemma_tree_with(before, RelatedFailureRelation::Cleanup, added, result);
                assert(failure.is_reported_by(added.tree()));
            }
            result
        },
    }
}

/// A candidate that could not be prepared; the target is as it was.
#[derive(Debug)]
pub enum DirectoryPrepareError<E> {
    NotPrepared {
        target_root: String,
        source: E,
        cleanup_failure: Option<StagingCleanupFailure<E>>,
    },
}

impl<E: DirectoryPublicationDiagnosticSource> DirectoryPrepareError<E> {
    /// Whether `report` tells of this failure: where the candidate was to go, what the file
    /// system says of it, and what could not be removed.
    pub open spec fn is_reported_by(&self, report: DiagnosticReport) -> bool {
        let DirectoryPrepareError::NotPrepared { target_root, source, cleanup_failure } = *self;
        let projection = source.projection(PublicationStep::PrepareCandidate);
        &&& with_cleanup(
            attached(ReportTree::single(projection.effect, report.primary), projection.related),
            cleanup_failure,
            report.tree(),
        )
        &&& report.primary matches Diagnostic::Publication(issue)
        &&& issue.step == PublicationStep::PrepareCandidate
        &&& issue.problem matches PublicationProblem::PrepareFailed {
            output_root,
            candidate_root,
            cause,
        }
        &&& output_root@ == diagnostic::safe_path(target_root@)
        &&& cause.cause() == projection.primary
        &&& match cleanup_failure {
            Some(failure) => candidate_root is Some && candidate_root->0@ == diagnostic::safe_path(
                failure.residual(),
            ),
            None => candidate_root is None,
        }
    }

    pub fn diagnostic_report(&self) -> (report: DiagnosticReport)
        ensures
            self.is_reported_by(report),
    {
        let DirectoryPrepareError::NotPrepared { target_root, source, cleanup_failure } = self;
        let projection = source.publication_diagnostic(PublicationStep::PrepareCandidate);
        let (source_effect, cause, related) = projection.into_parts();
        let candidate_root = match cleanup_failure {
            Some(failure) => Some(SafePath::new(failure.residual_path())),
            None => None,
        };
        let report = attach_backend_related(
            publication_report(
                StateEffect::Unchanged.strongest(source_effect),
                PublicationStep::PrepareCandidate,
                PublicationProblem::PrepareFailed {
                    output_root: SafePath::new(target_root.as_str()),
                    candidate_root,
                    cause,
                },
            ),
            related,
        );
        add_cleanup(report, cleanup_failure)
    }
}

/// The words for a failed cleanup, if one failed.
pub open spec fn cleanup_text<E>(cleanup: Option<StagingCleanupFailure<E>>, source: Seq<char>) -> Seq<
    char,
> {
    match cleanup {
        None => Seq::empty(),
        Some(failure) => "；"@ + failure.text(source),
    }
}

/// A message with the failed cleanup after it.
pub fn write_cleanup_failure<E>(
    message: String,
    cleanup_failure: &Option<StagingCleanupFailure<E>>,
    cleanup_source: &str,
) -> (result: String)
    ensures
        result@ == message@ + cleanup_text(*cleanup_failure, cleanup_source@),
{
    match cleanup_failure {
        None => {
            assert(message@ + Seq::<char>::empty() =~= message@);
            message
        },
        Some(failure) => {
            let text = failure.message(cleanup_source);
            let result = message.concat("；").concat(text.as_str());
            assert(result@ =~= message@ + ("；"@ + failure.text(cleanup_source@)));
            result
        },
    }
}

impl<E> DirectoryPrepareError<E> {
    pub open spec fn text(&self, source: Seq<char>, cleanup_source: Seq<char>) -> Seq<char> {
        let DirectoryPrepareError::NotPrepared { target_root, cleanup_failure, .. } = *self;
        "目录候选未准备（目标："@ + target_root@ + "）："@ + source + cleanup_text(
            cleanup_failure,
            cleanup_source,
        )
    }

    /// The failure in words; the arguments are its source and that of the cleanup in words.
    pub fn message(&self, source: &str, cleanup_source: &str) -> (message: String)
        ensures
            message@ == self.text(source@, cleanup_source@),
    {
        let DirectoryPrepareError::NotPrepared { target_root, cleanup_failure, .. } = self;
        let message = String::from_str("目录候选未准备（目标：").concat(target_root.as_str()).concat(
            "）：",
        ).concat(source);
        write_cleanup_failure(message, cleanup_failure, cleanup_source)
    }

    /// What the failure came from.
    pub fn source(&self) -> (source: &E)
        ensures
            *self matches DirectoryPrepareError::NotPrepared { source: held, .. } && held == *source,
    {
        let DirectoryPrepareError::NotPrepared { source, .. } = self;
        source
    }
}

/// Whether an explicit recovery found anything to do.
#[derive(Clone, Copy, Debug, PartialEq, Eq, Structural)]
pub enum DirectoryRecoveryOutcome {
    Unchanged,
    Recovered,
}

/// What a publication left behind could not be recovered before the target was looked at.
#[derive(Debug)]
pub struct DirectoryRecoveryError<E> {
    target_root: String,
    source: E,
}

impl<E> DirectoryRecoveryError<E> {
    pub closed spec fn target(&self) -> Seq<char> {
        self.target_root@
    }

    pub closed spec fn reason(&self) -> E {
        self.source
    }

    pub fn new(target_root: String, source: E) -> (error: Self)
        ensures
            error.target() == target_root@,
            error.reason() == source,
    {
        DirectoryRecoveryError { target_root, source }
    }

    pub fn source_error(&self) -> (source: &E)
        ensures
            *source == self.reason(),
    {
        &self.source
    }

    /// The failure in words; `source` is its source in words.
    pub fn message(&self, source: &str) -> (message: String)
        ensures
            message@ == "无法恢复目录发布目标 "@ + self.target() + "："@ + source@,
    {
        String::from_str("无法恢复目录发布目标 ").concat(self.target_root.as_str()).concat("：").concat(
            source,
        )
    }
}

impl<E: DirectoryPublicationDiagnosticSource> DirectoryRecoveryError<E> {
    /// Whether `report` tells of this failure: which target could not be recovered, and what
    /// the file system says of it.
    pub open spec fn is_reported_by(&self, report: DiagnosticReport) -> bool {
        let projection = self.reason().projection(PublicationStep::Recover);
        &&& report.tree() == attached(
            ReportTree::single(
                StateEffect::RecoveryRequired.worse(projection.effect),
                report.primary,
            ),
            projection.related,
        )
        &&& report.primary matches Diagnostic::Publication(issue)
        &&& issue.step == PublicationStep::Recover
        &&& issue.problem matches PublicationProblem::RecoveryFailed { output_root, cause }
        &&& output_root@ == diagnostic::safe_path(self.target())
        &&& cause.cause() == projection.primary
    }

    pub fn diagnostic_report(&self) -> (report: DiagnosticReport)
        ensures
            self.is_reported_by(report),
    {
        let projection = self.source.publication_diagnostic(PublicationStep::Recover);
        let (source_effect, cause, related) = projection.into_parts();
        attach_backend_related(
            publication_report(
                StateEffect::RecoveryRequired.strongest(source_effect),
                PublicationStep::Recover,
                PublicationProblem::RecoveryFailed {
                    output_root: SafePath::new(self.target_root.as_str()),
                    cause,
                },
            ),
            related,
        )
    }
}

/// A candidate that was to be discarded and could not be removed.
#[derive(Debug)]
pub struct DirectoryDiscardError<E> {
    staging_root: String,
    source: E,
}

impl<E> DirectoryDiscardError<E> {
    pub closed spec fn candidate(&self) -> Seq<char> {
        self.staging_root@
    }

    pub closed spec fn reason(&self) -> E {
        self.source
    }

    pub fn new(staging_root: String, source: E) -> (error: Self)
        ensures
            error.candidate() == staging_root@,
            error.reason() == source,
    {
        DirectoryDiscardError { staging_root, source }
    }

    pub fn staging_root(&self) -> (path: &str)
        ensures
            path@ == self.candidate(),
    {
        self.staging_root.as_str()
    }

    pub fn source(&self) -> (source: &E)
        ensures
            *source == self.reason(),
    {
        &self.source
    }

    /// The failure in words; `source` is its source in words.
    pub fn message(&self, source: &str) -> (message: String)
        ensures
            message@ == "无法丢弃暂存目录 "@ + self.candidate() + "："@ + source@,
    {
        String::from_str("无法丢弃暂存目录 ").concat(self.staging_root.as_str()).concat("：").concat(source)
    }
}

impl<E: DirectoryPublicationDiagnosticSource> DirectoryDiscardError<E> {
    /// Whether `report` tells of this failure: which candidate could not be discarded, and
    /// what the file system says of it.
    pub open spec fn is_reported_by(&self, report: DiagnosticReport) -> bool {
        let projection = self.reason().projection(PublicationStep::DiscardCandidate);
        &&& report.tree() == attached(
            ReportTree::single(
                StateEffect::RecoveryRequired.worse(projection.effect),
                report.primary,
            ),
            projection.related,
        )
        &&& report.primary matches Diagnostic::Publication(issue)
        &&& issue.step == PublicationStep::DiscardCandidate
        &&& issue.problem matches PublicationProblem::DiscardFailed { candidate_root, cause }
        &&& candidate_root@ == diagnostic::safe_path(self.candidate())
        &&& cause.cause() == projection.primary
    }

    pub fn diagnostic_report(&self) -> (report: DiagnosticReport)
        ensures
            self.is_reported_by(report),
    {
        let projection = self.source.publication_diagnostic(PublicationStep::DiscardCandidate);
        let (source_effect, cause, related) = projection.into_parts();
        attach_backend_related(
            publication_report(
                StateEffect::RecoveryRequired.strongest(source_effect),
                PublicationStep::DiscardCandidate,
                PublicationProblem::DiscardFailed {
                    candidate_root: SafePath::new(self.staging_root.as_str()),
                    cause,
                },
            ),
            related,
        )
    }
}

/// The paths as users write them.
pub open spec fn public_forms(paths: Seq<String>) -> Seq<Seq<char>> {
    paths.map_values(|path: String| diagnostic::public_form(path@))
}

/// The words for a list of paths.
pub open spec fn path_list(paths: Seq<String>) -> Seq<char> {
    if paths.len() == 0 {
        "无已知路径"@
    } else {
        text::joined(public_forms(paths), "、"@)
    }
}

/// Lists paths as users write them.
pub fn display_paths(paths: &Vec<String>) -> (list: String)
    ensures
        list@ == path_list(paths@),
{
    if paths.len() == 0 {
        return String::from_str("无已知路径");
    }
    let ghost forms = public_forms(paths@);
    let mut list = public_path(paths[0].as_str());
    let mut i: usize = 1;
    assert(forms.take(1) =~= seq![forms[0]]);
    while i < paths.len()
        invariant
            1 <= i <= paths.len(),
            forms == public_forms(paths@),
            list@ == text::joined(forms.take(i as int), "、"@),
        decreases paths.len() - i,
    {
        let shown = public_path(paths[i].as_str());
        list = list.concat("、").concat(shown.as_str());
        assert(forms.take(i + 1).drop_last() =~= forms.take(i as int));
        assert(forms.take(i + 1).last() == forms[i as int]);
        i += 1;
    }
    assert(forms.take(forms.len() as int) =~= forms);
    list
}

/// How a publication can fail.
#[derive(Debug)]
pub enum DirectoryPublishError<E> {
    TargetAlreadyExists { target_root: String, cleanup_failure: Option<StagingCleanupFailure<E>> },
    TargetMissing { target_root: String, cleanup_failure: Option<StagingCleanupFailure<E>> },
    TargetNotDirectory { target_root: String, cleanup_failure: Option<StagingCleanupFailure<E>> },
    /// Refused before anything was exchanged.
    NotAttempted {
        target_root: String,
        source: E,
        cleanup_failure: Option<StagingCleanupFailure<E>>,
    },
    /// The candidate did not become the target, which can still be trusted.
    NotPublished {
        target_root: String,
        source: E,
        cleanup_failure: Option<StagingCleanupFailure<E>>,
    },
    /// The candidate became the target, but something old could not be removed.
    PublishedWithResiduals { target_root: String, residual_path: String, source: E },
    /// The target is missing for now; old and new directory are known and can be recovered.
    RecoveryRequired { target_root: String, recovery_artifacts: Vec<String>, source: E },
    /// Exchange and recovery both failed; nobody knows what the target holds.
    OutcomeUnknown { target_root: String, recovery_artifacts: Vec<String>, source: E },
}

/// Whether the diagnostic paths stand for the paths, one by one.
pub open spec fn stand_for(shown: Seq<SafePath>, paths: Seq<String>) -> bool {
    shown.len() == paths.len() && forall|i: int|
        0 <= i < shown.len() ==> (#[trigger] shown[i])@ == diagnostic::safe_path(paths[i]@)
}

fn safe_paths(paths: &Vec<String>) -> (shown: Vec<SafePath>)
    ensures
        stand_for(shown@, paths@),
{
    let mut shown: Vec<SafePath> = Vec::new();
    let mut i: usize = 0;
    while i < paths.len()
        invariant
            i <= paths.len(),
            shown.len() == i,
            forall|k: int| 0 <= k < i ==> (#[trigger] shown@[k])@ == diagnostic::safe_path(paths[k]@),
        decreases paths.len() - i,
    {
        shown.push(SafePath::new(paths[i].as_str()));
        i += 1;
    }
    shown
}

/// What a failure came from.
#[derive(Debug)]
pub enum FailureCause<'a, E> {
    Cleanup(&'a StagingCleanupFailure<E>),
    Source(&'a E),
}

impl<E> DirectoryPublishError<E> {
    /// Where the directory was to appear.
    pub open spec fn target(&self) -> Seq<char> {
        match self {
            Self::TargetAlreadyExists { target_root, .. } => target_root@,
            Self::TargetMissing { target_root, .. } => target_root@,
            Self::TargetNotDirectory { target_root, .. } => target_root@,
            Self::NotAttempted { target_root, .. } => target_root@,
            Self::NotPublished { target_root, .. } => target_root@,
            Self::PublishedWithResiduals { target_root, .. } => target_root@,
            Self::RecoveryRequired { target_root, .. } => target_root@,
            Self::OutcomeUnknown { target_root, .. } => target_root@,
        }
    }

    pub open spec fn cleanup(&self) -> Option<StagingCleanupFailure<E>> {
        match self {
            Self::TargetAlreadyExists { cleanup_failure, .. } => *cleanup_failure,
            Self::TargetMissing { cleanup_failure, .. } => *cleanup_failure,
            Self::TargetNotDirectory { cleanup_failure, .. } => *cleanup_failure,
            Self::NotAttempted { cleanup_failure, .. } => *cleanup_failure,
            Self::NotPublished { cleanup_failure, .. } => *cleanup_failure,
            _ => None,
        }
    }

    pub open spec fn reason(&self) -> Option<E> {
        match self {
            Self::NotAttempted { source, .. } => Some(*source),
            Self::NotPublished { source, .. } => Some(*source),
            Self::PublishedWithResiduals { source, .. } => Some(*source),
            Self::RecoveryRequired { source, .. } => Some(*source),
            Self::OutcomeUnknown { source, .. } => Some(*source),
            _ => None,
        }
    }

    /// The state that the failure itself leaves behind.
    pub open spec fn own_effect(&self) -> StateEffect {
        match self {
            Self::PublishedWithResiduals { .. } => StateEffect::AppliedFinalizationFailed,
            Self::RecoveryRequired { .. } => StateEffect::RecoveryRequired,
            Self::OutcomeUnknown { .. } => StateEffect::OutcomeUnknown,
            _ => StateEffect::Unchanged,
        }
    }

    pub open spec fn step(&self) -> PublicationStep {
        if self is PublishedWithResiduals {
            PublicationStep::Finalize
        } else {
            PublicationStep::Publish
        }
    }

    /// The step of which the file system is asked.
    pub open spec fn failed_step(&self) -> PublicationStep {
        match self {
            Self::PublishedWithResiduals { .. } => PublicationStep::CleanupResidual,
            Self::RecoveryRequired { .. } => PublicationStep::Recover,
            Self::OutcomeUnknown { .. } => PublicationStep::Recover,
            _ => PublicationStep::Publish,
        }
    }

    /// Whether `problem` is this failure, with `cause` behind it if it has a source.
    pub open spec fn is_problem(&self, problem: PublicationProblem, cause: Diagnostic) -> bool {
        match self {
            Self::TargetAlreadyExists { .. } => {
                &&& problem matches PublicationProblem::TargetAlreadyExists { output_root }
                &&& output_root@ == diagnostic::safe_path(self.target())
            },
            Self::TargetMissing { .. } => {
                &&& problem matches PublicationProblem::TargetMissing { output_root }
                &&& output_root@ == diagnostic::safe_path(self.target())
            },
            Self::TargetNotDirectory { .. } => {
                &&& problem matches PublicationProblem::TargetNotDirectory { output_root }
                &&& output_root@ == diagnostic::safe_path(self.target())
            },
            Self::NotAttempted { .. } => {
                &&& problem matches PublicationProblem::NotAttempted { output_root, cause: c }
                &&& output_root@ == diagnostic::safe_path(self.target()) && c.cause() == cause
            },
            Self::NotPublished { .. } => {
                &&& problem matches PublicationProblem::NotPublished { output_root, cause: c }
                &&& output_root@ == diagnostic::safe_path(self.target()) && c.cause() == cause
            },
            Self::PublishedWithResiduals { residual_path: residual, .. } => {
                &&& problem matches PublicationProblem::PublishedFinalizationFailed {
                    output_root,
                    residual_path,
                    cause: c,
                }
                &&& output_root@ == diagnostic::safe_path(self.target()) && c.cause() == cause
                &&& residual_path@ == diagnostic::safe_path(residual@)
            },
            Self::RecoveryRequired { recovery_artifacts: artifacts, .. } => {
                &&& problem matches PublicationProblem::RecoveryRequired {
                    output_root,
                    recovery_artifacts,
                    cause: c,
                }
                &&& output_root@ == diagnostic::safe_path(self.target()) && c.cause() == cause
                &&& stand_for(recovery_artifacts@, artifacts@)
            },
            Self::OutcomeUnknown { recovery_artifacts: artifacts, .. } => {
                &&& problem matches PublicationProblem::OutcomeUnknown {
                    output_root,
                    recovery_artifacts,
                    cause: c,
                }
                &&& output_root@ == diagnostic::safe_path(self.target()) && c.cause() == cause
                &&& stand_for(recovery_artifacts@, artifacts@)
            },
        }
    }

    /// The failure in words.
    pub open spec fn text(&self, source: Seq<char>, cleanup_source: Seq<char>) -> Seq<char> {
        match self {
            Self::TargetAlreadyExists { cleanup_failure, .. } => "目录发布目标已存在："@ + self.target()
                + cleanup_text(*cleanup_failure, cleanup_source),
            Self::TargetMissing { cleanup_failure, .. } => "目录发布目标不存在："@ + self.target()
                + cleanup_text(*cleanup_failure, cleanup_source),
            Self::TargetNotDirectory { cleanup_failure, .. } => "目录发布目标不是目录："@ + self.target()
                + cleanup_text(*cleanup_failure, cleanup_source),
            Self::NotAttempted { cleanup_failure, .. } => "目录候选尚未开始发布（目标："@ + self.target()
                + "）："@ + source + cleanup_text(*cleanup_failure, cleanup_source),
            Self::NotPublished { cleanup_failure, .. } => "目录候选未发布（目标："@ + self.target() + "）："@
                + source + cleanup_text(*cleanup_failure, cleanup_source),
            Self::PublishedWithResiduals { residual_path, .. } => "目录候选已发布到 "@ + self.target()
                + "，但无法清理恢复产物 "@ + residual_path@ + "："@ + source,
            Self::RecoveryRequired { recovery_artifacts, .. } => "目录发布需要继续恢复（目标："@ + self.target()
                + "，恢复产物："@ + path_list(recovery_artifacts@) + "）："@ + source,
            Self::OutcomeUnknown { recovery_artifacts, .. } => "目录发布结果未知（目标："@ + self.target()
                + "，恢复产物："@ + path_list(recovery_artifacts@) + "）："@ + source,
        }
    }

    /// The failure in words; the arguments are its source and that of the cleanup in words.
    pub fn message(&self, source: &str, cleanup_source: &str) -> (message: String)
        ensures
            message@ == self.text(source@, cleanup_source@),
    {
        match self {
            Self::TargetAlreadyExists { target_root, cleanup_failure } => write_cleanup_failure(
                String::from_str("目录发布目标已存在：").concat(target_root.as_str()),
                cleanup_failure,
                cleanup_source,
            ),
            Self::TargetMissing { target_root, cleanup_failure } => write_cleanup_failure(
                String::from_str("目录发布目标不存在：").concat(target_root.as_str()),
                cleanup_failure,
                cleanup_source,
            ),
            Self::TargetNotDirectory { target_root, cleanup_failure } => write_cleanup_failure(
                String::from_str("目录发布目标不是目录：").concat(target_root.as_str()),
                cleanup_failure,
                cleanup_source,
            ),
            Self::NotAttempted { target_root, cleanup_failure, .. } => write_cleanup_failure(
                String::from_str("目录候选尚未开始发布（目标：").concat(target_root.as_str()).concat(
                    "）：",
                ).concat(source),
                cleanup_failure,
                cleanup_source,
            ),
            Self::NotPublished { target_root, cleanup_failure, .. } => write_cleanup_failure(
                String::from_str("目录候选未发布（目标：").concat(target_root.as_str()).concat(
                    "）：",
                ).concat(source),
                cleanup_failure,
                cleanup_source,
            ),
            Self::PublishedWithResiduals { target_root, residual_path, .. } => String::from_str(
                "目录候选已发布到 ",
            ).concat(target_root.as_str()).concat("，但无法清理恢复产物 ").concat(
                residual_path.as_str(),
            ).concat("：").concat(source),
            Self::RecoveryRequired { target_root, recovery_artifacts, .. } => {
                let artifacts = display_paths(recovery_artifacts);
                String::from_str("目录发布需要继续恢复（目标：").concat(target_root.as_str()).concat(
                    "，恢复产物：",
                ).concat(artifacts.as_str()).concat("）：").concat(source)
            },
            Self::OutcomeUnknown { target_root, recovery_artifacts, .. } => {
                let artifacts = display_paths(recovery_artifacts);
                String::from_str("目录发布结果未知（目标：").concat(target_root.as_str()).concat(
                    "，恢复产物：",
                ).concat(artifacts.as_str()).concat("）：").concat(source)
            },
        }
    }

    /// What the failure came from: its source, or for a refusal the cleanup that failed
    /// after it.
    pub fn source(&self) -> (cause: Option<FailureCause<'_, E>>)
        ensures
            match cause {
                Some(FailureCause::Source(source)) => !(self is NotAttempted) && self.reason() == Some(
                    *source,
                ),
                Some(FailureCause::Cleanup(failure)) => (self is NotAttempted || self.reason() is None)
                    && self.cleanup() == Some(*failure),
                None => (self is NotAttempted || self.reason() is None) && self.cleanup() is None,
            },
    {
        match self {
            Self::TargetAlreadyExists { cleanup_failure, .. }
            | Self::TargetMissing { cleanup_failure, .. }
            | Self::TargetNotDirectory { cleanup_failure, .. }
            | Self::NotAttempted { cleanup_failure, .. } => match cleanup_failure {
                Some(failure) => Some(FailureCause::Cleanup(failure)),
                None => None,
            },
            Self::NotPublished { source, .. }
            | Self::PublishedWithResiduals { source, .. }
            | Self::RecoveryRequired { source, .. }
            | Self::OutcomeUnknown { source, .. } => Some(FailureCause::Source(source)),
        }
    }
}

impl<E: DirectoryPublicationDiagnosticSource> DirectoryPublishError<E> {
    /// Whether `report` tells of this failure: what it left behind, what the file system
    /// says of it, and whether the cleanup after it failed.
    pub open spec fn is_reported_by(&self, report: DiagnosticReport) -> bool {
        let own = match self.reason() {
            Some(source) => {
                let projection = source.projection(self.failed_step());
                attached(
                    ReportTree::single(self.own_effect().worse(projection.effect), report.primary),
                    projection.related,
                )
            },
            None => ReportTree::single(self.own_effect(), report.primary),
        };
        let cause = self.reason()->0.projection(self.failed_step()).primary;
        &&& with_cleanup(own, self.cleanup(), report.tree())
        &&& report.primary matches Diagnostic::Publication(issue)
        &&& issue.step == self.step()
        &&& self.is_problem(issue.problem, cause)
    }

    pub fn diagnostic_report(&self) -> (report: DiagnosticReport)
        ensures
            self.is_reported_by(report),
    {
        match self {
            Self::TargetAlreadyExists { target_root, cleanup_failure } => add_cleanup(
                publication_report(
                    StateEffect::Unchanged,
                    PublicationStep::Publish,
                    PublicationProblem::TargetAlreadyExists {
                        output_root: SafePath::new(target_root.as_str()),
                    },
                ),
                cleanup_failure,
            ),
            Self::TargetMissing { target_root, cleanup_failure } => add_cleanup(
                publication_report(
                    StateEffect::Unchanged,
                    PublicationStep::Publish,
                    PublicationProblem::TargetMissing {
                        output_root: SafePath::new(target_root.as_str()),
                    },
                ),
                cleanup_failure,
            ),
            Self::TargetNotDirectory { target_root, cleanup_failure } => add_cleanup(
                publication_report(
                    StateEffect::Unchanged,
                    PublicationStep::Publish,
                    PublicationProblem::TargetNotDirectory {
                        output_root: SafePath::new(target_root.as_str()),
                    },
                ),
                cleanup_failure,
            ),
            Self::NotAttempted { target_root, source, cleanup_failure } => {
                let projection = source.publication_diagnostic(PublicationStep::Publish);
                let (source_effect, cause, related) = projection.into_parts();
                let problem = PublicationProblem::NotAttempted {
                    output_root: SafePath::new(target_root.as_str()),
                    cause,
                };
                let report = attach_backend_related(
                    publication_report(
                        StateEffect::Unchanged.strongest(source_effect),
                        PublicationStep::Publish,
                        problem,
                    ),
                    related,
                );
                add_cleanup(report, cleanup_failure)
            },
            Self::NotPublished { target_root, source, cleanup_failure } => {
                let projection = source.publication_diagnostic(PublicationStep::Publish);
                let (source_effect, cause, related) = projection.into_parts();
                let problem = PublicationProblem::NotPublished {
                    output_root: SafePath::new(target_root.as_str()),
                    cause,
                };
                let report = attach_backend_related(
                    publication_report(
                        StateEffect::Unchanged.strongest(source_effect),
                        PublicationStep::Publish,
                        problem,
                    ),
                    related,
                );
                add_cleanup(report, cleanup_failure)
            },
            Self::PublishedWithResiduals { target_root, residual_path, source } => {
                let projection = source.publication_diagnostic(PublicationStep::CleanupResidual);
                let (source_effect, cause, related) = projection.into_parts();
                attach_backend_related(
                    publication_report(
                        StateEffect::AppliedFinalizationFailed.strongest(source_effect),
                        PublicationStep::Finalize,
                        PublicationProblem::PublishedFinalizationFailed {
                            output_root: SafePath::new(target_root.as_str()),
                            residual_path: SafePath::new(residual_path.as_str()),
                            cause,
                        },
                    ),
                    related,
                )
            },
            Self::RecoveryRequired { target_root, recovery_artifacts, source } => {
                let projection = source.publication_diagnostic(PublicationStep::Recover);
                let (source_effect, cause, related) = projection.into_parts();
                attach_backend_related(
                    publication_report(
                        StateEffect::RecoveryRequired.strongest(source_effect),
                        PublicationStep::Publish,
                        PublicationProblem::RecoveryRequired {
                            output_root: SafePath::new(target_root.as_str()),
                            recovery_artifacts: safe_paths(recovery_artifacts),
                            cause,
                        },
                    ),
                    related,
                )
            },
            Self::OutcomeUnknown { target_root, recovery_artifacts, source } => {
                let projection = source.publication_diagnostic(PublicationStep::Recover);
                let (source_effect, cause, related) = projection.into_parts();
                attach_backend_related(
                    publication_report(
                        StateEffect::OutcomeUnknown.strongest(source_effect),
                        PublicationStep::Publish,
                        PublicationProblem::OutcomeUnknown {
                            output_root: SafePath::new(target_root.as_str()),
                            recovery_artifacts: safe_paths(recovery_artifacts),
                            cause,
                        },
                    ),
                    related,
                )
            },
        }
    }
}

/// What a file system finds around a failure can only make the report worse: it is at
/// least as severe as the failure itself and as everything found around it.
pub proof fn attached_reports_never_understate(
    report: ReportTree,
    related: Seq<(RelatedFailureRelation, ReportTree)>,
)
    ensures
        attached(report, related).primary == report.primary,
        attached(report, related).effect.severity() >= report.effect.severity(),
        forall|i: int|
            0 <= i < related.len() ==> attached(report, related).effect.severity() >= (
            #[trigger] related[i]).1.effect.severity(),
    decreases related.len(),
{
    if related.len() > 0 {
        let rest = related.drop_last();
        attached_reports_never_understate(report, rest);
        assert forall|i: int| 0 <= i < related.len() implies attached(
            report,
            related,
        ).effect.severity() >= (#[trigger] related[i]).1.effect.severity() by {
            if i < rest.len() {
                assert(rest[i] == related[i]);
            } else {
                assert(related[i] == related.last());
            }
        }
    }
}

/// A failed publication is reported at least as severely as the state it left behind,
/// and as the cleanup that failed after it.
pub proof fn publish_reports_never_understate<E: DirectoryPublicationDiagnosticSource>(
    error: DirectoryPublishError<E>,
    report: DiagnosticReport,
)
    requires
        error.is_reported_by(report),
    ensures
        report.effect.severity() >= error.own_effect().severity(),
        error.cleanup() is Some ==> report.effect.severity()
            >= StateEffect::RecoveryRequired.severity(),
        error.reason() matches Some(source) ==> report.effect.severity() >= source.projection(
            error.failed_step(),
        ).effect.severity(),
{
    let own = match error.reason() {
        Some(source) => {
            let projection = source.projection(error.failed_step());
            let single = ReportTree::single(
                error.own_effect().worse(projection.effect),
                report.primary,
            );
            attached_reports_never_understate(single, projection.related);
            attached(single, projection.related)
        },
        None => ReportTree::single(error.own_effect(), report.primary),
    };
    if let Some(failure) = error.cleanup() {
        let cleanup = choose|cleanup: ReportTree| #[trigger]
            failure.is_reported_by(cleanup) && report.tree() == own.with(
                RelatedFailureRelation::Cleanup,
                cleanup,
            );
        let projection = failure.reason().projection(PublicationStep::CleanupResidual);
        attached_reports_never_understate(
            ReportTree::single(
                StateEffect::RecoveryRequired.worse(projection.effect),
                cleanup.primary,
            ),
            projection.related,
        );
    }
}

} // verus!
