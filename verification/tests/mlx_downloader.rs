use codictate::mlx::catalog::{
    MlxCatalogModel,
    ModelSource,
    ModelSourceKind,
};
use codictate::mlx::downloader::{
    DownloadSourceTarget,
    ModelDownloader,
    SourceDispatchErrorKind,
};

#[test]
fn ordered_sources_are_sorted_by_priority() {
    let model = MlxCatalogModel {
        canonical_id: "test_v1".to_string(),
        aliases: Vec::new(),
        display_name: "Test".to_string(),
        description: "Test".to_string(),
        size_bytes: 1,
        parameters: "~1 GB".to_string(),
        sources: vec![
            ModelSource {
                kind: ModelSourceKind::HttpMirror,
                value: "https://mirror".to_string(),
                priority: 20,
                enabled: true,
                allow_fallback: true,
            },
            ModelSource {
                kind: ModelSourceKind::HuggingfaceRepo,
                value: "mlx-community/test".to_string(),
                priority: 10,
                enabled: true,
                allow_fallback: false,
            },
        ],
    };

    let ordered = ModelDownloader::ordered_sources(&model);
    assert_eq!(ordered[0].priority, 10);
    assert_eq!(ordered[1].priority, 20);
}

#[test]
fn dispatch_hf_source_returns_hf_target() {
    let source = ModelSource {
        kind: ModelSourceKind::HuggingfaceRepo,
        value: "mlx-community/test".to_string(),
        priority: 10,
        enabled: true,
        allow_fallback: false,
    };

    let target = ModelDownloader::dispatch_download_target(&source)
        .expect("hf source should resolve to a target");
    assert_eq!(
        target,
        DownloadSourceTarget::HuggingFaceRepo("mlx-community/test".to_string())
    );
}

#[test]
fn dispatch_mirror_source_returns_non_fatal_error_when_fallback_allowed() {
    let source = ModelSource {
        kind: ModelSourceKind::HttpMirror,
        value: "https://mirror".to_string(),
        priority: 10,
        enabled: true,
        allow_fallback: true,
    };

    let error = ModelDownloader::dispatch_download_target(&source)
        .expect_err("mirror source should be deferred");
    assert_eq!(error.kind, SourceDispatchErrorKind::NotConfigured);
    assert!(error.can_fallback());
}

#[test]
fn ordered_sources_keep_order_of_equal_priorities() {
    let source = |value: &str, priority: u32| ModelSource {
        kind: ModelSourceKind::HuggingfaceRepo,
        value: value.to_string(),
        priority,
        enabled: true,
        allow_fallback: false,
    };
    let model = MlxCatalogModel {
        canonical_id: "t_v1".to_string(),
        aliases: Vec::new(),
        display_name: "T".to_string(),
        description: "T".to_string(),
        size_bytes: 1,
        parameters: "~1 GB".to_string(),
        sources: vec![source("c", 20), source("a", 10), source("d", 20), source("b", 10)],
    };
    let order: Vec<&str> = ModelDownloader::ordered_sources(&model).iter().map(|s| s.value.as_str()).collect();
    assert_eq!(order, vec!["a", "b", "c", "d"]);
}

#[test]
fn dispatch_errors_for_disabled_and_blank_sources() {
    let mut source = ModelSource {
        kind: ModelSourceKind::HuggingfaceRepo,
        value: "   ".to_string(),
        priority: 10,
        enabled: true,
        allow_fallback: false,
    };
    let blank = ModelDownloader::dispatch_download_target(&source).expect_err("blank repo");
    assert_eq!(blank.kind, SourceDispatchErrorKind::NotConfigured);
    assert_eq!(blank.message, "Hugging Face source is missing repo value");
    assert!(!blank.can_fallback());
    source.enabled = false;
    let disabled = ModelDownloader::dispatch_download_target(&source).expect_err("disabled");
    assert_eq!(disabled.kind, SourceDispatchErrorKind::Disabled);
    assert_eq!(disabled.message, "Download source is disabled");
    assert!(disabled.can_fallback());
}
