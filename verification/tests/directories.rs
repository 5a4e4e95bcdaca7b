use att_runtime::candidate::{
    DirectoryFileOverlay, DirectoryPublishIntent, DirectorySourceMapping, DirectoryStageRequest,
    DirectoryStageRequestError,
};
use att_runtime::fingerprint::{
    DirectoryTreeFingerprintRequest, DirectoryTreeFingerprintRequestError, DirectoryTreeRoot,
};
use att_runtime::lease::{ExclusiveFileLeaseRequest, ExclusiveFileLeaseRequestError};
use att_runtime::path_index::{overlapping_later_paths, RelativePathIndex};

fn text(value: &str) -> String {
    value.to_owned()
}

fn mapping(source: &str, target: &str) -> DirectorySourceMapping {
    DirectorySourceMapping::new(text(source), text(target)).expect("测试来源映射应该合法")
}

fn overlay(path: &str) -> DirectoryFileOverlay {
    DirectoryFileOverlay::new(text(path), vec![1, 2, 3]).expect("测试文件覆盖应该合法")
}

fn request(
    target: &str,
    intent: DirectoryPublishIntent,
    mappings: Vec<DirectorySourceMapping>,
    overlays: Vec<DirectoryFileOverlay>,
    empty: Vec<String>,
) -> Result<DirectoryStageRequest, DirectoryStageRequestError> {
    DirectoryStageRequest::new(text(target), intent, mappings, overlays, empty)
}

#[test]
fn every_candidate_relative_path_rejects_empty_absolute_and_escape_forms() {
    for path in [
        ".",
        "../assets",
        "assets/../scripts",
        "assets/./catalog.json",
        "/outside",
        "C:/outside",
    ] {
        assert!(matches!(
            DirectorySourceMapping::new(text("source"), text(path)),
            Err(DirectoryStageRequestError::InvalidRelativePath { .. })
        ));
        assert!(matches!(
            DirectoryFileOverlay::new(text(path), Vec::new()),
            Err(DirectoryStageRequestError::InvalidRelativePath { .. })
        ));
        assert!(matches!(
            request(
                "out",
                DirectoryPublishIntent::CreateNew,
                vec![mapping("source", "source")],
                Vec::new(),
                vec![text(path)],
            ),
            Err(DirectoryStageRequestError::InvalidRelativePath { .. })
        ));
    }
    assert!(
        DirectorySourceMapping::new(text("source"), String::new()).is_ok(),
        "来源映射可以精确声明候选根"
    );
    assert!(matches!(
        DirectoryFileOverlay::new(String::new(), Vec::new()),
        Err(DirectoryStageRequestError::InvalidRelativePath { .. })
    ));
    assert!(matches!(
        request(
            "out",
            DirectoryPublishIntent::CreateNew,
            vec![mapping("source", "source")],
            Vec::new(),
            vec![String::new()],
        ),
        Err(DirectoryStageRequestError::InvalidRelativePath { .. })
    ));
}

#[test]
fn root_source_mapping_owns_the_whole_candidate_and_must_be_unique() {
    let accepted = request(
        "out",
        DirectoryPublishIntent::ReplaceExisting,
        vec![DirectorySourceMapping::new(text("source"), String::new()).expect("根来源映射应合法")],
        vec![overlay("dialogue.jsonl"), overlay("nested/name.jsonl")],
        Vec::new(),
    )
    .expect("根来源映射应覆盖全部文件");
    assert!(accepted.source_mappings()[0].relative_target().is_empty());
    assert_eq!(accepted.target_root(), "out");
    assert_eq!(accepted.publish_intent(), DirectoryPublishIntent::ReplaceExisting);
    assert_eq!(accepted.overlays()[1].relative_file(), "nested/name.jsonl");
    assert_eq!(accepted.overlays()[1].bytes(), &[1, 2, 3]);
    assert!(accepted.empty_directories().is_empty());

    assert!(matches!(
        request(
            "out",
            DirectoryPublishIntent::ReplaceExisting,
            vec![
                DirectorySourceMapping::new(text("source/root"), String::new())
                    .expect("根来源映射应合法"),
                mapping("source/nested", "nested"),
            ],
            Vec::new(),
            Vec::new(),
        ),
        Err(DirectoryStageRequestError::OverlappingSourceTargets { .. })
    ));
}

#[test]
fn stage_request_rejects_missing_roots_and_sources() {
    assert!(matches!(
        DirectorySourceMapping::new(String::new(), text("assets")),
        Err(DirectoryStageRequestError::EmptySourceDirectory)
    ));
    assert!(matches!(
        request(
            "",
            DirectoryPublishIntent::CreateNew,
            vec![mapping("source", "assets")],
            Vec::new(),
            Vec::new(),
        ),
        Err(DirectoryStageRequestError::EmptyTargetRoot)
    ));
    assert!(matches!(
        request(
            "out",
            DirectoryPublishIntent::CreateNew,
            Vec::new(),
            Vec::new(),
            Vec::new(),
        ),
        Err(DirectoryStageRequestError::EmptySourceMappings)
    ));
}

#[test]
fn stage_request_rejects_overlapping_targets_overlays_and_empty_directories() {
    assert!(matches!(
        request(
            "out",
            DirectoryPublishIntent::CreateNew,
            vec![
                mapping("source/assets", "assets"),
                mapping("source/catalog", "assets/catalog")
            ],
            Vec::new(),
            Vec::new(),
        ),
        Err(DirectoryStageRequestError::OverlappingSourceTargets { .. })
    ));
    assert!(matches!(
        request(
            "out",
            DirectoryPublishIntent::CreateNew,
            vec![mapping("source/assets", "assets")],
            vec![
                overlay("assets/catalog.json"),
                overlay("assets/catalog.json")
            ],
            Vec::new(),
        ),
        Err(DirectoryStageRequestError::OverlappingOverlays { .. })
    ));
    assert!(matches!(
        request(
            "out",
            DirectoryPublishIntent::CreateNew,
            vec![mapping("source/assets", "assets")],
            Vec::new(),
            vec![text("empty"), text("empty/child")],
        ),
        Err(DirectoryStageRequestError::OverlappingEmptyDirectories { .. })
    ));
    assert!(matches!(
        request(
            "out",
            DirectoryPublishIntent::CreateNew,
            vec![mapping("source/assets", "assets")],
            Vec::new(),
            vec![text("assets/empty")],
        ),
        Err(DirectoryStageRequestError::EmptyDirectoryOverlapsSourceTarget { .. })
    ));
    assert!(matches!(
        request(
            "out",
            DirectoryPublishIntent::CreateNew,
            vec![mapping("source/assets", "assets")],
            vec![overlay("assets/catalog.json")],
            vec![text("assets/catalog.json/child")],
        ),
        Err(DirectoryStageRequestError::EmptyDirectoryOverlapsOverlay { .. })
    ));
}

#[test]
fn overlay_can_replace_a_source_file_or_create_a_disjoint_file() {
    request(
        "out",
        DirectoryPublishIntent::CreateNew,
        vec![mapping("source/assets", "assets")],
        vec![overlay("assets/catalog.json"), overlay("scripts/main.lua")],
        Vec::new(),
    )
    .expect("来源内替换与独立文件覆盖都应合法");
}

#[test]
fn overlay_rejects_a_source_target_or_its_ancestor() {
    assert!(matches!(
        request(
            "out",
            DirectoryPublishIntent::CreateNew,
            vec![mapping("source/assets", "assets")],
            vec![overlay("assets")],
            Vec::new(),
        ),
        Err(DirectoryStageRequestError::OverlayOverlapsSourceTarget {
            overlay,
            source_target,
        }) if overlay == "assets" && source_target == "assets"
    ));
    assert!(matches!(
        request(
            "out",
            DirectoryPublishIntent::CreateNew,
            vec![mapping("source/images", "assets/images")],
            vec![overlay("assets")],
            Vec::new(),
        ),
        Err(DirectoryStageRequestError::OverlayOverlapsSourceTarget {
            overlay,
            source_target,
        }) if overlay == "assets" && source_target == "assets/images"
    ));
}

#[test]
fn stage_request_prefix_index_preserves_input_order_error_selection() {
    let error = request(
        "out",
        DirectoryPublishIntent::CreateNew,
        vec![
            mapping("source/z", "z"),
            mapping("source/a", "a"),
            mapping("source/a-child", "a/child"),
            mapping("source/z-child", "z/child"),
        ],
        Vec::new(),
        Vec::new(),
    )
    .expect_err("输入顺序最早的重叠声明必须失败");
    assert_eq!(
        error,
        DirectoryStageRequestError::OverlappingSourceTargets {
            first: text("z"),
            second: text("z/child"),
        }
    );
    assert_eq!(
        error.message(),
        "目录发布的来源目标子树相互重叠：z 与 z/child"
    );

    let error = request(
        "out",
        DirectoryPublishIntent::CreateNew,
        vec![mapping("source/assets", "assets")],
        vec![
            overlay("assets"),
            overlay("scripts/catalog.json"),
            overlay("scripts/catalog.json/child"),
        ],
        Vec::new(),
    )
    .expect_err("较早覆盖的来源目标冲突必须先于较晚覆盖间冲突");
    assert_eq!(
        error,
        DirectoryStageRequestError::OverlayOverlapsSourceTarget {
            overlay: text("assets"),
            source_target: text("assets"),
        }
    );
}

#[test]
fn release_stress_stage_request_accepts_many_disjoint_overlays_without_pairwise_scanning() {
    let overlays = (0..10_000)
        .map(|ordinal| overlay(&format!("assets/file-{ordinal:05}.json")))
        .collect();
    let accepted = request(
        "out",
        DirectoryPublishIntent::CreateNew,
        vec![mapping("source/assets", "assets")],
        overlays,
        Vec::new(),
    )
    .expect("互不重叠的大型覆盖 manifest 应通过前缀索引一次校验");
    assert_eq!(accepted.overlays().len(), 10_000);
}

#[test]
fn tree_fingerprint_request_requires_non_overlapping_safe_logical_roots() {
    assert!(matches!(
        DirectoryTreeFingerprintRequest::new(Vec::new()),
        Err(DirectoryTreeFingerprintRequestError::EmptyRoots)
    ));
    for logical in [
        "",
        ".",
        "../assets",
        "assets/../scripts",
        "/assets",
        "C:/assets",
    ] {
        assert!(matches!(
            DirectoryTreeRoot::new(text("physical"), text(logical)),
            Err(DirectoryTreeFingerprintRequestError::InvalidLogicalRoot { .. })
        ));
    }
    assert!(matches!(
        DirectoryTreeFingerprintRequest::new(vec![
            DirectoryTreeRoot::new(text("physical/assets"), text("assets"))
                .expect("资源逻辑根应该合法"),
            DirectoryTreeRoot::new(text("physical/catalog"), text("assets/catalog"))
                .expect("资源子逻辑根应该合法"),
        ]),
        Err(DirectoryTreeFingerprintRequestError::OverlappingLogicalRoots { .. })
    ));

    let accepted = DirectoryTreeFingerprintRequest::new(vec![
        DirectoryTreeRoot::new(text("physical/assets"), text("assets"))
            .expect("资源逻辑根应该合法"),
        DirectoryTreeRoot::new(text("physical/scripts"), text("scripts"))
            .expect("脚本逻辑根应该合法"),
    ])
    .expect("资源与脚本逻辑根互不重叠");
    assert_eq!(accepted.roots().len(), 2);
}

#[test]
fn tree_root_needs_a_physical_root() {
    assert!(matches!(
        DirectoryTreeRoot::new(String::new(), text("assets")),
        Err(DirectoryTreeFingerprintRequestError::EmptyPhysicalRoot)
    ));
    assert_eq!(
        DirectoryTreeFingerprintRequestError::EmptyPhysicalRoot.message(),
        "目录树物理根不能为空"
    );
}

#[test]
fn exclusive_file_lease_request_requires_a_directory_and_identity() {
    assert!(matches!(
        ExclusiveFileLeaseRequest::new(String::new(), text("game")),
        Err(ExclusiveFileLeaseRequestError::EmptyLockDirectory)
    ));
    assert!(matches!(
        ExclusiveFileLeaseRequest::new(text("C:/workspaces/locks/leases"), String::new()),
        Err(ExclusiveFileLeaseRequestError::EmptyIdentity)
    ));

    let accepted =
        ExclusiveFileLeaseRequest::new(text("C:/workspaces/locks/leases"), text("游戏 一"))
            .expect("Unicode 文件租约身份应该合法");
    assert_eq!(accepted.lock_directory(), "C:/workspaces/locks/leases");
    assert_eq!(accepted.identity(), "游戏 一");
}

#[test]
fn release_stress_path_index_drops_deep_declarations_without_recursive_rust_stack_use() {
    let mut deep = String::from("d");
    for _ in 1..20_000 {
        deep.push_str("\\d");
    }
    let descendant = format!("{deep}\\file.json");

    let index = RelativePathIndex::from_paths(&vec![deep]);
    assert_eq!(index.first_strict_ancestor(&descendant), Some(0));
    drop(index);
}

fn starts_with(path: &str, beginning: &str) -> bool {
    path.strip_prefix(beginning)
        .is_some_and(|rest| rest.is_empty() || rest.starts_with('/'))
}

#[test]
fn suffix_path_index_matches_pairwise_overlap_and_earliest_ordinal_semantics() {
    let paths: Vec<String> = [
        "z",
        "a/first",
        "other/value",
        "a",
        "z/last",
        "other/value",
        "independent",
    ]
    .into_iter()
    .map(text)
    .collect();
    let expected = paths
        .iter()
        .enumerate()
        .map(|(first, path)| {
            paths
                .iter()
                .enumerate()
                .skip(first + 1)
                .find_map(|(second, other)| {
                    (path == other || starts_with(path, other) || starts_with(other, path))
                        .then_some(second)
                })
        })
        .collect::<Vec<_>>();

    assert_eq!(overlapping_later_paths(&paths), expected);
    assert_eq!(
        expected,
        vec![Some(4), Some(3), Some(5), None, None, None, None]
    );
}

#[test]
fn path_index_answers_with_the_earliest_declaration() {
    let paths = vec![text("b/c"), text("b"), text("b/c/d")];
    let index = RelativePathIndex::from_paths(&paths);
    assert_eq!(index.first_overlapping("b/c/d/e"), Some(0));
    assert_eq!(index.first_overlapping("b/x"), Some(1));
    assert_eq!(index.first_overlapping("x"), None);
    assert_eq!(index.first_strict_ancestor("b/c"), Some(1));
    assert_eq!(index.first_strict_ancestor("b"), None);
    assert_eq!(index.first_overlapping("b\\c"), Some(0));
}
