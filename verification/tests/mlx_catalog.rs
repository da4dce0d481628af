use codictate::mlx::catalog::{
    build_embedded_catalog, recommended_model_id_for_ram, CatalogErrorKind, MlxCatalog,
    MlxCatalogModel, ModelSource, ModelSourceKind,
};
use codictate::mlx::provider::{CatalogProvider, EmbeddedCatalogProvider};

#[test]
fn embedded_catalog_resolves_aliases() {
    let catalog = build_embedded_catalog(16).expect("catalog should build");
    assert_eq!(
        catalog.resolve_canonical_id("qwen3_base_4b"),
        Some("qwen3_base_4b_v1".to_string())
    );
    assert_eq!(
        catalog.resolve_canonical_id("qwen3_base_4b_v1"),
        Some("qwen3_base_4b_v1".to_string())
    );
}

#[test]
fn embedded_catalog_uses_versioned_ids() {
    let catalog = build_embedded_catalog(16).expect("catalog should build");
    assert!(
        catalog
            .models()
            .all(|model| model.canonical_id.ends_with("_v1")),
        "all canonical IDs must be versioned"
    );
}

#[test]
fn recommended_default_is_ram_tiered() {
    assert_eq!(recommended_model_id_for_ram(8), "qwen3_base_1.7b_v1");
    assert_eq!(recommended_model_id_for_ram(12), "qwen3_base_4b_v1");
    assert_eq!(recommended_model_id_for_ram(24), "qwen3_base_8b_v1");
}

#[test]
fn smollm3_entry_points_to_smollm3_repo() {
    let catalog = build_embedded_catalog(16).expect("catalog should build");
    let model = catalog
        .get_model("smollm3_base_3b_v1")
        .expect("smollm3 model should exist");
    assert_eq!(
        model.primary_hf_repo(),
        Some("mlx-community/SmolLM3-3B-4bit")
    );
}

#[test]
fn catalog_rejects_duplicate_aliases() {
    let result = MlxCatalog::new(
        vec![
            MlxCatalogModel {
                canonical_id: "a_v1".to_string(),
                aliases: vec!["legacy_a".to_string()],
                display_name: "A".to_string(),
                description: "A".to_string(),
                size_bytes: 1,
                parameters: "~1 GB".to_string(),
                sources: vec![ModelSource {
                    kind: ModelSourceKind::HuggingfaceRepo,
                    value: "repo/a".to_string(),
                    priority: 10,
                    enabled: true,
                    allow_fallback: false,
                }],
            },
            MlxCatalogModel {
                canonical_id: "b_v1".to_string(),
                aliases: vec!["legacy_a".to_string()],
                display_name: "B".to_string(),
                description: "B".to_string(),
                size_bytes: 1,
                parameters: "~1 GB".to_string(),
                sources: vec![ModelSource {
                    kind: ModelSourceKind::HuggingfaceRepo,
                    value: "repo/b".to_string(),
                    priority: 10,
                    enabled: true,
                    allow_fallback: false,
                }],
            },
        ],
        "a_v1".to_string(),
    );

    assert!(result.is_err());
}

fn model(id: &str, aliases: &[&str], enabled: bool) -> MlxCatalogModel {
    MlxCatalogModel {
        canonical_id: id.to_string(),
        aliases: aliases.iter().map(|a| a.to_string()).collect(),
        display_name: id.to_string(),
        description: id.to_string(),
        size_bytes: 1,
        parameters: "~1 GB".to_string(),
        sources: vec![ModelSource {
            kind: ModelSourceKind::HuggingfaceRepo,
            value: format!("repo/{id}"),
            priority: 10,
            enabled,
            allow_fallback: false,
        }],
    }
}

fn error_of(models: Vec<MlxCatalogModel>, default: &str) -> (CatalogErrorKind, String, String) {
    let e = MlxCatalog::new(models, default.to_string()).expect_err("catalog must be refused");
    let message = e.message();
    (e.kind, e.subject, message)
}

#[test]
fn catalog_errors_name_the_first_problem() {
    assert_eq!(
        error_of(vec![model("a_v1", &[], true), model("a_v1", &[], true)], "a_v1"),
        (CatalogErrorKind::DuplicateCanonicalId, "a_v1".to_string(), "Duplicate canonical MLX model ID: a_v1".to_string())
    );
    assert_eq!(
        error_of(vec![model("a_v1", &[], false)], "a_v1"),
        (CatalogErrorKind::NoEnabledSource, "a_v1".to_string(), "MLX model a_v1 has no enabled download source".to_string())
    );
    assert_eq!(
        error_of(vec![model("a_v1", &["a_v1"], true)], "a_v1"),
        (CatalogErrorKind::AliasEqualsCanonicalId, "a_v1".to_string(), "MLX model a_v1 has alias equal to canonical ID".to_string())
    );
    assert_eq!(
        error_of(vec![model("a_v1", &["x", "x"], true)], "a_v1"),
        (CatalogErrorKind::DuplicateAlias, "x".to_string(), "Duplicate MLX model alias: x".to_string())
    );
    assert_eq!(
        error_of(vec![model("a_v1", &[], true)], "b_v1"),
        (CatalogErrorKind::DefaultNotInCatalog, "b_v1".to_string(), "Default MLX model b_v1 is not in catalog".to_string())
    );
    assert_eq!(
        error_of(vec![model("a_v1", &["b_v1"], true), model("b_v1", &[], true)], "a_v1"),
        (CatalogErrorKind::AliasCollidesWithCanonicalId, "b_v1".to_string(), "MLX alias b_v1 collides with canonical model ID".to_string())
    );
}

#[test]
fn valid_catalog_resolves_ids_and_aliases() {
    let catalog = MlxCatalog::new(vec![model("a_v1", &["a"], true), model("b_v1", &["b", "bee"], true)], "b_v1".to_string())
        .expect("valid catalog");
    assert_eq!(catalog.resolve_canonical_id("bee"), Some("b_v1".to_string()));
    assert_eq!(catalog.resolve_canonical_id("a_v1"), Some("a_v1".to_string()));
    assert_eq!(catalog.resolve_canonical_id("c"), None);
    assert_eq!(catalog.default_canonical_id(), "b_v1");
    assert_eq!(catalog.get_model("b_v1").map(|m| m.display_name.as_str()), Some("b_v1"));
    assert!(catalog.get_model("b").is_none());
    assert_eq!(catalog.models().count(), 2);
}

#[test]
fn primary_repo_prefers_lowest_priority_enabled_hf_source() {
    let mut m = model("a_v1", &[], true);
    m.sources = vec![
        ModelSource { kind: ModelSourceKind::HttpMirror, value: "https://mirror".to_string(), priority: 1, enabled: true, allow_fallback: true },
        ModelSource { kind: ModelSourceKind::HuggingfaceRepo, value: "repo/disabled".to_string(), priority: 2, enabled: false, allow_fallback: false },
        ModelSource { kind: ModelSourceKind::HuggingfaceRepo, value: "repo/first".to_string(), priority: 5, enabled: true, allow_fallback: false },
        ModelSource { kind: ModelSourceKind::HuggingfaceRepo, value: "repo/tie".to_string(), priority: 5, enabled: true, allow_fallback: false },
    ];
    assert_eq!(m.primary_hf_repo(), Some("repo/first"));
    m.sources.truncate(2);
    assert_eq!(m.primary_hf_repo(), None);
}

#[test]
fn embedded_catalog_defaults_follow_ram() {
    assert_eq!(build_embedded_catalog(8).expect("catalog").default_canonical_id(), "qwen3_base_1.7b_v1");
    assert_eq!(build_embedded_catalog(32).expect("catalog").default_canonical_id(), "qwen3_base_8b_v1");
    assert_eq!(build_embedded_catalog(16).expect("catalog").models().count(), 7);
}

#[test]
fn embedded_provider_loads_the_embedded_catalog() {
    let catalog = EmbeddedCatalogProvider.load_catalog(12).expect("catalog");
    assert_eq!(catalog.default_canonical_id(), "qwen3_base_4b_v1");
}
