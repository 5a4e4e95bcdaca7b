//! What errors say of themselves.

use vstd::prelude::*;
use crate::candidate::DirectoryStageRequestError;
use crate::cpu::CpuTaskExecutionError;
use crate::file_system::{ListDirectoryError, ReadFileError, ResolveDirectoryError};
use crate::fingerprint::{DirectoryTreeFingerprintError, DirectoryTreeFingerprintRequestError};
use crate::lease::ExclusiveFileLeaseRequestError;
use crate::log_errors::PrepareTerminalDiagnosticError;
use crate::log_event::TaskCounterInvariantError;
use crate::log_producer::{EmitError, FinishError};
use crate::publication;
use crate::publication::{DirectoryPrepareError, DirectoryPublishError, StagingCleanupFailure};
use crate::scoped::ScopedDirectoryScopeError;
use crate::sqlite_error;
use crate::sqlite_error::SqliteRuntimeError;
use crate::text;
use crate::windows;
use crate::windows::WindowsFsError;

verus! {

/// A refused request to prepare a candidate names the paths that it concerns, in the order in
/// which they were given.
pub proof fn refused_requests_name_their_paths(error: DirectoryStageRequestError)
    ensures
        error is EmptyTargetRoot ==> error.text() == "目录发布目标根目录不能为空"@,
        error is EmptySourceDirectory ==> error.text() == "目录发布来源目录不能为空"@,
        error is EmptySourceMappings ==> error.text() == "目录发布至少需要一棵来源子树"@,
        error matches DirectoryStageRequestError::InvalidRelativePath { path }
            ==> error.text() == "目录发布路径不是安全相对路径："@ + path@,
        error matches DirectoryStageRequestError::OverlappingSourceTargets { first, second }
            ==> error.text() == "目录发布的来源目标子树相互重叠："@ + first@ + " 与 "@ + second@,
        error matches DirectoryStageRequestError::OverlappingOverlays { first, second }
            ==> error.text() == "目录发布的文件覆盖相互重叠："@ + first@ + " 与 "@ + second@,
        error matches DirectoryStageRequestError::OverlappingEmptyDirectories { first, second }
            ==> error.text() == "目录发布的空目录相互重叠："@ + first@ + " 与 "@ + second@,
        error matches DirectoryStageRequestError::OverlayOverlapsSourceTarget { overlay, source_target }
            ==> error.text() == "目录发布的文件覆盖 "@ + overlay@ + " 与来源目标子树 "@ + source_target@ + " 冲突"@,
        error matches DirectoryStageRequestError::EmptyDirectoryOverlapsSourceTarget { empty_directory, source_target }
            ==> error.text() == "目录发布的空目录 "@ + empty_directory@ + " 与来源目标子树 "@ + source_target@
            + " 重叠"@,
        error matches DirectoryStageRequestError::EmptyDirectoryOverlapsOverlay { empty_directory, overlay }
            ==> error.text() == "目录发布的空目录 "@ + empty_directory@ + " 与文件覆盖 "@ + overlay@ + " 重叠"@,
{
}

/// A refused scope names the directory that it was refused for.
pub proof fn refused_scopes_name_their_directory(error: ScopedDirectoryScopeError)
    ensures
        error is Empty ==> error.text() == "候选编辑范围必须至少声明一个顶层目录"@,
        error matches ScopedDirectoryScopeError::InvalidRoot { root }
            ==> error.text() == "候选编辑范围必须使用单个安全相对路径段："@ + root@,
        error matches ScopedDirectoryScopeError::DuplicateRoot { root }
            ==> error.text() == "候选编辑范围重复声明顶层目录："@ + root@,
{
}

/// A refused fingerprint names the roots that it was refused for.
pub proof fn refused_fingerprints_name_their_paths(error: DirectoryTreeFingerprintRequestError)
    ensures
        error is EmptyRoots ==> error.text() == "目录树指纹至少需要一个逻辑根"@,
        error is EmptyPhysicalRoot ==> error.text() == "目录树物理根不能为空"@,
        error matches DirectoryTreeFingerprintRequestError::InvalidLogicalRoot { path }
            ==> error.text() == "目录树逻辑根必须是安全相对路径："@ + path@,
        error matches DirectoryTreeFingerprintRequestError::OverlappingLogicalRoots { first, second }
            ==> error.text() == "目录树逻辑根不能重叠："@ + first@ + " 与 "@ + second@,
{
}

/// A failed fingerprint names the path, and what it came from.
pub proof fn failed_fingerprints_name_their_path<E>(
    error: DirectoryTreeFingerprintError<E>,
    source: Seq<char>,
)
    ensures
        error matches DirectoryTreeFingerprintError::NotFound { path }
            ==> error.text(source) == "目录树不存在："@ + path@,
        error matches DirectoryTreeFingerprintError::NotDirectory { path }
            ==> error.text(source) == "目录树根不是目录："@ + path@,
        error matches DirectoryTreeFingerprintError::ChangedDuringObservation { path }
            ==> error.text(source) == "目录树在建立指纹期间发生变化："@ + path@,
        error matches DirectoryTreeFingerprintError::Failed { path, .. }
            ==> error.text(source) == "无法建立目录树指纹 "@ + path@ + "："@ + source,
{
}

/// A directory that cannot be resolved is named.
pub proof fn unresolved_directories_are_named<E>(error: ResolveDirectoryError<E>, source: Seq<char>)
    ensures
        error matches ResolveDirectoryError::NotFound { path }
            ==> error.text(source) == "目录不存在："@ + path@,
        error matches ResolveDirectoryError::NotDirectory { path }
            ==> error.text(source) == "路径不是目录："@ + path@,
        error matches ResolveDirectoryError::Io { path, .. }
            ==> error.text(source) == "无法解析目录 "@ + path@ + "："@ + source,
{
}

/// A directory that cannot be listed is named.
pub proof fn unlisted_directories_are_named<E>(error: ListDirectoryError<E>, source: Seq<char>)
    ensures
        error matches ListDirectoryError::NotFound { path }
            ==> error.text(source) == "目录不存在："@ + path@,
        error matches ListDirectoryError::NotDirectory { path }
            ==> error.text(source) == "路径不是目录："@ + path@,
        error matches ListDirectoryError::Io { path, .. }
            ==> error.text(source) == "无法列举目录 "@ + path@ + "："@ + source,
{
}

/// A file that cannot be read is named.
pub proof fn unread_files_are_named<E>(error: ReadFileError<E>, source: Seq<char>)
    ensures
        error matches ReadFileError::NotFound { path } ==> error.text(source) == "文件不存在："@ + path@,
        error matches ReadFileError::NotFile { path } ==> error.text(source) == "路径不是文件："@ + path@,
        error matches ReadFileError::Io { path, .. }
            ==> error.text(source) == "无法读取文件 "@ + path@ + "："@ + source,
{
}

/// A task that did not run says why.
pub proof fn failed_tasks_say_why<E>(error: CpuTaskExecutionError<E>, source: Seq<char>)
    ensures
        error is Unavailable ==> error.text(source) == "CPU 执行器不可用："@ + source,
        error is TaskPanicked ==> error.text(source) == "CPU 任务执行时发生 panic"@,
{
}

/// A refused lease says what it lacks.
pub proof fn refused_leases_say_why(error: ExclusiveFileLeaseRequestError)
    ensures
        error is EmptyLockDirectory ==> error.text() == "排他文件租约目录不能为空",
        error is EmptyIdentity ==> error.text() == "排他文件租约身份不能为空",
{
}

/// Counters that do not add up say which sum is wrong.
pub proof fn wrong_counters_say_why(error: TaskCounterInvariantError)
    ensures
        error is StartedBreakdown ==> error.text() == "started 与任务终态合计不一致",
        error is PlannedBreakdown ==> error.text() == "planned 与 started + not_started 不一致",
        error is Overflow ==> error.text() == "任务计数相加溢出",
{
}

/// A failure of the file system names its path, and what the system said.
pub proof fn file_system_failures_name_their_path(error: WindowsFsError)
    ensures
        error matches WindowsFsError::Io { operation, path, source }
            ==> error.text() == operation@ + " "@ + path@ + " 失败："@ + source.text@,
        error matches WindowsFsError::ReparsePoint { path }
            ==> error.text() == "路径是被禁止的 reparse point："@ + path@,
        error matches WindowsFsError::NonLocalVolume { path }
            ==> error.text() == "路径不位于本机固定卷："@ + path@,
        error matches WindowsFsError::NonNtfsVolume { path, actual }
            ==> error.text() == "路径不位于 NTFS 卷（实际："@ + actual@ + "）："@ + path@,
        error matches WindowsFsError::CaseSensitiveDirectory { path }
            ==> error.text() == "目录启用了大小写敏感语义："@ + path@,
        error matches WindowsFsError::LockCancelled { path }
            ==> error.text() == "等待文件锁已取消："@ + path@,
        error matches WindowsFsError::RenameTargetExists { path }
            ==> error.text() == "无覆盖重命名的目标已经存在："@ + path@,
        error matches WindowsFsError::FileIdentityChanged { path }
            ==> error.text() == "待重命名对象的文件身份已经变化："@ + path@,
        error matches WindowsFsError::Cryptography { operation, status }
            ==> error.text() == operation@ + " 失败（NTSTATUS 0x"@
            + text::hex_fixed(windows::unsigned(status), 8) + "）"@,
{
}

/// A refused event says why, with what it was refused for.
pub proof fn refused_events_say_why(error: EmitError)
    ensures
        error is Closed ==> error.text() == "项目日志生产者已经关闭"@,
        error matches EmitError::RuntimeManagedEvent { event }
            ==> error.text() == "事件 "@ + event.name()@ + " 只能由项目日志运行时建立"@,
        error matches EmitError::UnknownDiagnostic(id)
            ==> error.text() == "事件引用了未知诊断 occurrence "@ + text::decimal(id.number() as nat),
        error matches EmitError::InvalidDiagnosticScope(id)
            ==> error.text() == "事件引用的诊断 occurrence "@ + text::decimal(id.number() as nat)
            + " 不属于该终态 scope"@,
        error matches EmitError::InvalidPhaseTransition(phase)
            ==> error.text() == "阶段 "@ + phase.name()@ + " 的状态转换无效"@,
        error is DuplicateRunPlan ==> error.text() == "运行计划已经解析"@,
        error is InvalidRunPlanTransition ==> error.text() == "运行计划收尾状态转换无效"@,
        error is RunPlanCommandMismatch ==> error.text() == "运行计划类型与命令不一致"@,
        error is InvalidRunPlanTransaction ==> error.text() == "运行计划事务终态不一致"@,
        error matches EmitError::DuplicateTask(ordinal)
            ==> error.text() == "任务 "@ + text::decimal(ordinal as nat) + " 重复开始"@,
        error matches EmitError::InvalidTaskTransition(ordinal)
            ==> error.text() == "任务 "@ + text::decimal(ordinal as nat) + " 的终态转换无效"@,
        error is InconsistentTaskTotal ==> error.text() == "任务事件的 total 不一致"@,
        error is DuplicateTranslationFinished ==> error.text() == "translation.finished 只能出现一次"@,
        error is DuplicatePublication ==> error.text() == "发布已经开始"@,
        error is InvalidPublicationTransition ==> error.text() == "发布终态转换无效"@,
        error is UnfinishedTasks ==> error.text() == "仍有已开始但没有终态的任务"@,
        error is TaskSummaryMismatch ==> error.text() == "任务事件与翻译汇总不一致"@,
        error is TaskCountDoesNotFit ==> error.text() == "任务数量无法表示为 u64"@,
        error is EngineSummaryMismatch ==> error.text() == "汇总类型与项目引擎不一致"@,
        error matches EmitError::InvalidRetrySummary { attempted, recovered, exhausted }
            ==> error.text() == "重试汇总不一致：attempted="@ + text::decimal(attempted as nat)
            + ", recovered="@ + text::decimal(recovered as nat) + ", exhausted="@
            + text::decimal(exhausted as nat),
        error matches EmitError::InvalidCancellationCount { confirmed, total }
            ==> error.text() == "取消汇总 confirmed="@ + text::decimal(confirmed as nat)
            + " 大于 total="@ + text::decimal(total as nat),
        error is DiagnosticRequiresFailedTranslation
            ==> error.text() == "已有运行计划诊断时不能使用无诊断引用的 NotStarted"@,
        error is PlanningFailureStartedTasks ==> error.text() == "规划失败必须把全部计划任务计入 not_started"@,
        error is OccurrenceIdExhausted ==> error.text() == "诊断 occurrence ID 已耗尽"@,
        error is SequenceExhausted ==> error.text() == "项目日志 sequence 已耗尽"@,
{
}

/// A refused end says why, with what it was refused for.
pub proof fn refused_ends_say_why(error: FinishError)
    ensures
        error is AlreadyFinished ==> error.text() == "项目日志已经收尾"@,
        error is ActivePhase ==> error.text() == "仍有 started 阶段没有 completed 或 stopped"@,
        error is UnfinishedTasks ==> error.text() == "仍有已开始任务没有 task.finished"@,
        error is UnfinalizedRunPlan ==> error.text() == "运行计划已解析但尚未收尾"@,
        error is MissingTranslationFinished
            ==> error.text() == "Translate 运行缺少唯一 translation.finished"@,
        error is MissingPublicationFinished ==> error.text() == "已开始的发布缺少 publication.finished"@,
        error matches FinishError::UnknownDiagnostic(id)
            ==> error.text() == "运行终态引用了未知诊断 occurrence "@ + text::decimal(id.number() as nat),
        error matches FinishError::InvalidTerminalDiagnostic(id)
            ==> error.text() == "诊断 occurrence "@ + text::decimal(id.number() as nat)
            + " 不是待写终端诊断"@,
        error is ChannelClosed ==> error.text() == "项目日志 channel 已关闭"@,
{
}

/// A refused closing diagnostic says why.
pub proof fn refused_closing_diagnostics_say_why(error: PrepareTerminalDiagnosticError)
    ensures
        error is Closed ==> error.text() == "项目日志生产者已经关闭",
        error is OccurrenceIdExhausted ==> error.text() == "诊断 occurrence ID 已耗尽",
{
}

/// A failure of the storage says what was being done, where, and what it came from.
pub proof fn storage_failures_say_what_failed(error: SqliteRuntimeError)
    ensures
        error is Closed ==> error.text() == "SQLite 存储根已经关闭"@,
        error matches SqliteRuntimeError::AvailableParallelism { source }
            ==> error.text() == "无法探测 SQLite 可用并行度："@ + source.text@,
        error matches SqliteRuntimeError::Cancelled { operation }
            ==> error.text() == "SQLite "@ + operation@ + " 在等待数据库锁时被取消"@,
        error is InteractiveSessionAlreadyOpen ==> error.text() == "当前 SQLite 存储根已有活动交互会话"@,
        error matches SqliteRuntimeError::WorkerSpawn { worker, source }
            ==> error.text() == "无法启动 SQLite 工作线程 "@ + worker@ + "："@ + source.text@,
        error matches SqliteRuntimeError::WorkerPanicked(worker)
            ==> error.text() == "SQLite 工作线程 "@ + worker@ + " 发生 panic"@,
        error matches SqliteRuntimeError::Io { operation, path, source }
            ==> error.text() == "SQLite "@ + operation@ + " "@ + path@ + " 失败："@ + source.text@,
        error matches SqliteRuntimeError::WindowsFileSystem { operation, path, source }
            ==> error.text() == "SQLite "@ + operation@ + " "@ + path@ + " 失败："@ + source.text(),
        error matches SqliteRuntimeError::Driver { operation, source }
            ==> error.text() == "SQLite "@ + operation@ + " 失败："@ + source.text@,
        error matches SqliteRuntimeError::QueryContext { query_id, ordinal, source }
            ==> error.text() == "SQLite 查询 "@ + query_id@ + "（序号 "@
            + text::decimal(ordinal as nat) + "）失败："@ + source.text(),
        error matches SqliteRuntimeError::InvalidTarget { path }
            ==> error.text() == "SQLite 目标不是普通文件："@ + path@,
        error matches SqliteRuntimeError::UnexpectedArtifact { path }
            ==> error.text() == "SQLite 新建数据库之前已存在未归属本次操作的伴生文件："@ + path@,
        error matches SqliteRuntimeError::InvalidValue(reason)
            ==> error.text() == "SQLite 值无效："@ + reason@,
        error matches SqliteRuntimeError::Internal(reason)
            ==> error.text() == "SQLite 内部不变量破坏："@ + reason@,
        error matches SqliteRuntimeError::BackupIncomplete(state)
            ==> error.text() == "SQLite online backup 未完成："@ + state@,
        error matches SqliteRuntimeError::Cleanup { primary, failures }
            ==> error.text() == primary.text() + "；清理失败"@
            + sqlite_error::failure_texts(failures@),
{
}

/// A failed publication names its target, what is left behind, and what it came from.
pub proof fn failed_publications_name_their_target<E>(
    error: DirectoryPublishError<E>,
    source: Seq<char>,
    cleanup_source: Seq<char>,
)
    ensures
        error matches DirectoryPublishError::TargetAlreadyExists { cleanup_failure, .. }
            ==> error.text(source, cleanup_source) == "目录发布目标已存在："@ + error.target()
            + publication::cleanup_text(cleanup_failure, cleanup_source),
        error matches DirectoryPublishError::TargetMissing { cleanup_failure, .. }
            ==> error.text(source, cleanup_source) == "目录发布目标不存在："@ + error.target()
            + publication::cleanup_text(cleanup_failure, cleanup_source),
        error matches DirectoryPublishError::TargetNotDirectory { cleanup_failure, .. }
            ==> error.text(source, cleanup_source) == "目录发布目标不是目录："@ + error.target()
            + publication::cleanup_text(cleanup_failure, cleanup_source),
        error matches DirectoryPublishError::NotAttempted { cleanup_failure, .. }
            ==> error.text(source, cleanup_source) == "目录候选尚未开始发布（目标："@ + error.target() + "）："@
            + source + publication::cleanup_text(cleanup_failure, cleanup_source),
        error matches DirectoryPublishError::NotPublished { cleanup_failure, .. }
            ==> error.text(source, cleanup_source) == "目录候选未发布（目标："@ + error.target() + "）："@
            + source + publication::cleanup_text(cleanup_failure, cleanup_source),
        error matches DirectoryPublishError::PublishedWithResiduals { residual_path, .. }
            ==> error.text(source, cleanup_source) == "目录候选已发布到 "@ + error.target()
            + "，但无法清理恢复产物 "@ + residual_path@ + "："@ + source,
        error matches DirectoryPublishError::RecoveryRequired { recovery_artifacts, .. }
            ==> error.text(source, cleanup_source) == "目录发布需要继续恢复（目标："@ + error.target()
            + "，恢复产物："@ + publication::path_list(recovery_artifacts@) + "）："@ + source,
        error matches DirectoryPublishError::OutcomeUnknown { recovery_artifacts, .. }
            ==> error.text(source, cleanup_source) == "目录发布结果未知（目标："@ + error.target()
            + "，恢复产物："@ + publication::path_list(recovery_artifacts@) + "）："@ + source,
{
}

/// Failed cleanups are told one by one, each behind a semicolon, and paths in a row, or as
/// unknown where there are none.
pub proof fn lists_of_failures_are_told_in_order<E>(
    failures: Seq<SqliteRuntimeError>,
    failure: SqliteRuntimeError,
    cleanup: StagingCleanupFailure<E>,
    paths: Seq<String>,
    source: Seq<char>,
)
    ensures
        sqlite_error::failure_texts(Seq::empty()).len() == 0,
        sqlite_error::failure_texts(failures.push(failure)) == sqlite_error::failure_texts(failures)
            + "；"@ + failure.text(),
        publication::cleanup_text::<E>(None, source).len() == 0,
        publication::cleanup_text(Some(cleanup), source) == "；"@ + ("无法清理目录 "@ + cleanup.residual()
            + "："@ + source),
        paths.len() == 0 ==> publication::path_list(paths) == "无已知路径"@,
        paths.len() > 0 ==> publication::path_list(paths) == text::joined(
            Seq::new(paths.len(), |i: int| crate::diagnostic::public_form(paths[i]@)),
            "、"@,
        ),
{
    assert(failures.push(failure).drop_last() =~= failures);
    assert(publication::public_forms(paths) =~= Seq::new(
        paths.len(),
        |i: int| crate::diagnostic::public_form(paths[i]@),
    ));
}

/// A candidate that was not prepared is told with its target, its cause and its cleanup.
pub proof fn unprepared_candidates_name_their_target<E>(
    error: DirectoryPrepareError<E>,
    source: Seq<char>,
    cleanup_source: Seq<char>,
)
    ensures
        error matches DirectoryPrepareError::NotPrepared { target_root, cleanup_failure, .. }
            && error.text(source, cleanup_source) == "目录候选未准备（目标："@ + target_root@ + "）："@
            + source + publication::cleanup_text(cleanup_failure, cleanup_source),
{
}

} // verus!
