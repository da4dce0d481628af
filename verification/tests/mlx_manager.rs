use codictate::mlx::create_model_registry as create_fixed_model_registry;
use codictate::mlx::manager::{
    check_delete_model, check_disk_space, check_download_request, check_switch_target,
    download_finished_status, plan_download_retry, DownloadStart, generation_needs_reload, selected_text_model,
    text_model_to_load, create_model_registry, get_system_memory_gb, is_busy,
    progress_emit_due, status_after_disk_scan, DownloadByteCounter, MlxModelStatus,
};

#[test]
fn disk_scan_updates_statuses() {
    assert_eq!(status_after_disk_scan(MlxModelStatus::NotDownloaded, true, true), MlxModelStatus::Downloaded);
    assert_eq!(status_after_disk_scan(MlxModelStatus::DownloadFailed, true, true), MlxModelStatus::Downloaded);
    assert_eq!(status_after_disk_scan(MlxModelStatus::Ready, true, true), MlxModelStatus::Ready);
    assert_eq!(status_after_disk_scan(MlxModelStatus::Ready, true, false), MlxModelStatus::NotDownloaded);
    assert_eq!(status_after_disk_scan(MlxModelStatus::Downloading, false, false), MlxModelStatus::Downloading);
    assert_eq!(status_after_disk_scan(MlxModelStatus::Downloaded, false, false), MlxModelStatus::NotDownloaded);
}

#[test]
fn busy_while_downloading_or_loading() {
    assert!(is_busy(true, &Vec::new()));
    assert!(is_busy(false, &vec![MlxModelStatus::Ready, MlxModelStatus::Loading]));
    assert!(!is_busy(false, &vec![MlxModelStatus::Ready, MlxModelStatus::Downloaded]));
}

#[test]
fn only_downloaded_models_can_be_switched_to() {
    assert_eq!(check_switch_target("m", Some(MlxModelStatus::Downloaded)), Ok(()));
    assert_eq!(check_switch_target("m", Some(MlxModelStatus::NotDownloaded)), Err("Model m is not downloaded".to_string()));
    assert_eq!(check_switch_target("m", None), Err("Model m not found or in invalid state".to_string()));
    assert_eq!(check_switch_target("m", Some(MlxModelStatus::Loading)), Err("Model m not found or in invalid state".to_string()));
}

#[test]
fn manager_test_create_model_registry() {
    for ram in [get_system_memory_gb(None), 8, 12, 16, 17, 64] {
        let registry = create_model_registry(ram);
        assert!(!registry.is_empty());
        assert!(registry.iter().any(|m| m.id == "qwen3_base_1.7b"));

        let default_models: Vec<_> = registry.iter().filter(|m| m.is_default).collect();
        assert_eq!(default_models.len(), 1, "Should have exactly one default model");

        let default = default_models[0];
        assert!(
            default.id == "qwen3_base_1.7b" || default.id == "qwen3_base_4b" || default.id == "qwen3_base_8b",
            "Default model should be qwen3_base_1.7b, qwen3_base_4b, or qwen3_base_8b, got: {}",
            default.id
        );
    }
}

#[test]
fn mlx_test_create_model_registry() {
    let registry = create_fixed_model_registry();
    assert!(!registry.is_empty());
    assert!(registry.iter().any(|m| m.id == "qwen3_base_1.7b"));

    let default = registry
        .iter()
        .find(|m| m.is_default)
        .expect("Should have a default model");
    assert_eq!(default.id, "qwen3_base_1.7b");
}

#[test]
fn registry_default_follows_memory() {
    let default_id = |ram: u64| create_model_registry(ram).into_iter().find(|m| m.is_default).unwrap().id;
    assert_eq!(default_id(8), "qwen3_base_1.7b");
    assert_eq!(default_id(9), "qwen3_base_4b");
    assert_eq!(default_id(16), "qwen3_base_4b");
    assert_eq!(default_id(17), "qwen3_base_8b");
    let registry = create_model_registry(8);
    assert_eq!(registry.len(), 7);
    assert_eq!(registry[3].size_bytes, 4700 * 1024 * 1024);
    assert_eq!(registry[6].hf_repo, "mlx-community/SmolLM2-1.7B-Instruct-4bit");
    assert!(registry.iter().all(|m| m.status == MlxModelStatus::NotDownloaded));
}

const DF_HEADER: &str = "Filesystem 1024-blocks Used Available Capacity iused ifree %iused Mounted on\n";

#[test]
fn disk_space_check_reads_df_output() {
    let low = format!("{}/dev/disk3s5 971350180 580000000 200000 75% 1 2 3% /\n", DF_HEADER);
    assert_eq!(
        check_disk_space(Some(&low), 1024 * 1024 * 1024),
        Err("Insufficient disk space. Required: 1124 MB, Available: 195 MB".to_string())
    );
    let plenty = format!("{}/dev/disk3s5 971350180 580000000 391350180 60% 1 2 3% /\n", DF_HEADER);
    assert_eq!(check_disk_space(Some(&plenty), 1024 * 1024 * 1024), Ok(()));
    assert_eq!(check_disk_space(None, u64::MAX), Ok(()));
    assert_eq!(check_disk_space(Some(DF_HEADER), u64::MAX), Ok(()));
    assert_eq!(check_disk_space(Some("a\nb c d notanumber"), u64::MAX), Ok(()));
}

#[test]
fn system_memory_comes_from_sysctl() {
    assert_eq!(get_system_memory_gb(Some("17179869184\n")), 16);
    assert_eq!(get_system_memory_gb(Some(" 8589934592 ")), 8);
    assert_eq!(get_system_memory_gb(Some("+34359738368")), 32);
    assert_eq!(get_system_memory_gb(Some("lots")), 16);
    assert_eq!(get_system_memory_gb(Some("99999999999999999999")), 16);
    assert_eq!(get_system_memory_gb(None), 16);
}

#[test]
fn download_bytes_add_up_over_files() {
    let mut counter = DownloadByteCounter::new();
    counter.set_grand_total(300);
    counter.start_file(100);
    counter.add_bytes(60);
    counter.add_bytes(40);
    assert_eq!(counter.total_downloaded(), 100);
    counter.mark_file_complete();
    counter.start_file(200);
    counter.add_bytes(50);
    assert_eq!(counter.total_downloaded(), 150);
    assert_eq!(counter.previous_files_bytes, 100);
    assert_eq!(counter.current_file_total, 200);
    assert_eq!(counter.grand_total_bytes, 300);
    assert!(!progress_emit_due(99));
    assert!(progress_emit_due(100));
}

#[test]
fn text_processing_loads_the_selected_downloaded_model() {
    assert_eq!(selected_text_model(None), "qwen3_base_1.7b");
    assert_eq!(selected_text_model(Some("qwen3_base_4b")), "qwen3_base_4b");
    assert_eq!(text_model_to_load(true, "m", None), Ok(None));
    assert_eq!(
        text_model_to_load(false, "m", Some(MlxModelStatus::Downloaded)),
        Ok(Some("m".to_string()))
    );
    assert_eq!(text_model_to_load(false, "m", Some(MlxModelStatus::Ready)), Ok(None));
    assert_eq!(
        text_model_to_load(false, "m", Some(MlxModelStatus::Loading)),
        Err("Selected MLX model is not downloaded: m".to_string())
    );
    assert_eq!(
        text_model_to_load(false, "m", None),
        Err("Selected MLX model is not downloaded: m".to_string())
    );
    assert!(generation_needs_reload("Sidecar generation failed: No model loaded yet"));
    assert!(!generation_needs_reload("timeout"));
}

#[test]
fn download_requests_are_checked() {
    assert_eq!(check_download_request("x", None, false), Err("Model not found: x".to_string()));
    assert_eq!(
        check_download_request("x", Some(MlxModelStatus::NotDownloaded), true),
        Err("Another download is already in progress".to_string())
    );
    assert_eq!(check_download_request("x", Some(MlxModelStatus::Ready), false), Ok(DownloadStart::AlreadyDownloaded));
    assert_eq!(check_download_request("x", Some(MlxModelStatus::DownloadFailed), false), Ok(DownloadStart::Start));
}

#[test]
fn download_outcomes_set_the_status() {
    assert_eq!(download_finished_status(None), MlxModelStatus::Downloaded);
    assert_eq!(download_finished_status(Some("Download cancelled by user")), MlxModelStatus::NotDownloaded);
    assert_eq!(download_finished_status(Some("network down")), MlxModelStatus::DownloadFailed);
}

#[test]
fn retries_are_counted_and_bounded() {
    let failed = vec!["m1".to_string(), "m2".to_string()];
    assert_eq!(plan_download_retry(Some(0), &failed), Ok((Some(1), None)));
    assert_eq!(plan_download_retry(Some(3), &failed), Err("Maximum retry attempts (3) reached".to_string()));
    assert_eq!(plan_download_retry(None, &failed), Ok((None, Some("m1".to_string()))));
    assert_eq!(plan_download_retry(None, &vec![]), Err("No failed download to retry".to_string()));
}

#[test]
fn busy_models_cannot_be_deleted() {
    assert_eq!(check_delete_model("m", Some("m"), None, true), Err("Cannot delete model while downloading".to_string()));
    assert_eq!(check_delete_model("m", Some("n"), Some("m"), true), Err("Cannot delete model while it is loaded".to_string()));
    assert_eq!(check_delete_model("m", None, None, false), Err("Model not found: m".to_string()));
    assert_eq!(check_delete_model("m", None, None, true), Ok(()));
}
