//! Decisions of the local model manager: the registry of models, model status after a scan
//! of the models directory, whether the manager is busy, whether a model can be switched
//! to, the disk space and memory checks, and the byte counts of a download.

use vstd::prelude::*;
use crate::correction::{find_chars, find_pos};
use crate::text::{chars_of, concat3, decimal, parse_u64_chars, parsed_u64, split_chars, split_on, split_words, string_from_chars, trim, trim_chars, u64_to_decimal, views, words};

verus! {

/// The lifecycle of a local model.
#[derive(Clone, Copy, Debug, PartialEq, Eq, Structural)]
pub enum MlxModelStatus {
    /// Model is not downloaded.
    NotDownloaded,
    /// Model is currently being downloaded.
    Downloading,
    /// Model download failed.
    DownloadFailed,
    /// Model is downloaded but not loaded.
    Downloaded,
    /// Model is currently being loaded into memory.
    Loading,
    /// Model is loaded and ready for inference.
    Ready,
    /// Model loading failed.
    LoadFailed,
}

/// A model's status after looking at its directory: a complete download makes a model
/// that was not (or unsuccessfully) downloaded downloaded; an incomplete directory is
/// removed and the model is not downloaded; without a directory the model is not
/// downloaded unless a download is under way.
pub open spec fn scanned_status(status: MlxModelStatus, dir_exists: bool, complete: bool) -> MlxModelStatus {
    if dir_exists {
        if complete {
            if status == MlxModelStatus::NotDownloaded || status == MlxModelStatus::DownloadFailed {
                MlxModelStatus::Downloaded
            } else {
                status
            }
        } else {
            MlxModelStatus::NotDownloaded
        }
    } else if status != MlxModelStatus::Downloading {
        MlxModelStatus::NotDownloaded
    } else {
        status
    }
}

pub fn status_after_disk_scan(status: MlxModelStatus, dir_exists: bool, download_complete: bool) -> (r:
    MlxModelStatus)
    ensures
        r == scanned_status(status, dir_exists, download_complete),
{
    if dir_exists {
        if download_complete {
            if status == MlxModelStatus::NotDownloaded || status == MlxModelStatus::DownloadFailed {
                MlxModelStatus::Downloaded
            } else {
                status
            }
        } else {
            MlxModelStatus::NotDownloaded
        }
    } else if status != MlxModelStatus::Downloading {
        MlxModelStatus::NotDownloaded
    } else {
        status
    }
}

/// Scanning twice gives what scanning once gave, when the disk has not changed.
pub proof fn law_scan_idempotent(status: MlxModelStatus, dir_exists: bool, complete: bool)
    ensures
        scanned_status(scanned_status(status, dir_exists, complete), dir_exists, complete)
            == scanned_status(status, dir_exists, complete),
{
}

/// The manager is busy while a download runs or a model loads.
pub fn is_busy(download_in_progress: bool, statuses: &Vec<MlxModelStatus>) -> (r: bool)
    ensures
        r == (download_in_progress || exists|i: int|
            0 <= i < statuses@.len() && statuses@[i] == MlxModelStatus::Loading),
{
    if download_in_progress {
        return true;
    }
    let mut i: usize = 0;
    while i < statuses.len()
        invariant
            i <= statuses.len(),
            forall|k: int| 0 <= k < i ==> statuses@[k] != MlxModelStatus::Loading,
        decreases statuses.len() - i,
    {
        if statuses[i] == MlxModelStatus::Loading {
            return true;
        }
        i = i + 1;
    }
    false
}

/// Why a model cannot be switched to, if it cannot: only a downloaded model can.
pub open spec fn switch_error(model_id: Seq<char>, status: Option<MlxModelStatus>) -> Option<Seq<char>> {
    match status {
        Some(MlxModelStatus::Downloaded) => None,
        Some(MlxModelStatus::NotDownloaded) => Some("Model "@ + model_id + " is not downloaded"@),
        _ => Some("Model "@ + model_id + " not found or in invalid state"@),
    }
}

/// Checks that a model can be switched to, from its status (`None` when it is unknown).
pub fn check_switch_target(model_id: &str, status: Option<MlxModelStatus>) -> (r: Result<(), String>)
    ensures
        match switch_error(model_id@, status) {
            Some(m) => r matches Err(e) && e@ == m,
            None => r is Ok,
        },
{
    match status {
        Some(MlxModelStatus::Downloaded) => Ok(()),
        Some(MlxModelStatus::NotDownloaded) => Err(concat3("Model ", model_id, " is not downloaded")),
        _ => Err(concat3("Model ", model_id, " not found or in invalid state")),
    }
}

/// What the manager knows of a model: its identity, download size, status, and whether it
/// is the recommended default. The download progress is kept beside it by the app.
#[derive(Clone, Debug, PartialEq, Eq)]
pub struct MlxModelInfo {
    pub id: String,
    pub display_name: String,
    pub description: String,
    pub hf_repo: String,
    pub size_bytes: u64,
    pub status: MlxModelStatus,
    pub is_default: bool,
    pub parameters: String,
}

/// The views of a model's fields.
pub type MlxModelInfoView = (
    Seq<char>,
    Seq<char>,
    Seq<char>,
    Seq<char>,
    u64,
    MlxModelStatus,
    bool,
    Seq<char>,
);

/// The view of a model.
pub open spec fn model_info_view(m: MlxModelInfo) -> MlxModelInfoView {
    (
        m.id@,
        m.display_name@,
        m.description@,
        m.hf_repo@,
        m.size_bytes,
        m.status,
        m.is_default,
        m.parameters@,
    )
}

/// The views of a sequence of models.
pub open spec fn model_info_views(s: Seq<MlxModelInfo>) -> Seq<MlxModelInfoView> {
    s.map_values(|m: MlxModelInfo| model_info_view(m))
}

/// A model that is not downloaded yet.
pub fn new_model_info(
    id: &str,
    display_name: &str,
    description: &str,
    hf_repo: &str,
    size_bytes: u64,
    is_default: bool,
    parameters: &str,
) -> (r: MlxModelInfo)
    ensures
        model_info_view(r) == (
            id@,
            display_name@,
            description@,
            hf_repo@,
            size_bytes,
            MlxModelStatus::NotDownloaded,
            is_default,
            parameters@,
        ),
{
    MlxModelInfo {
        id: id.to_string(),
        display_name: display_name.to_string(),
        description: description.to_string(),
        hf_repo: hf_repo.to_string(),
        size_bytes,
        status: MlxModelStatus::NotDownloaded,
        is_default,
        parameters: parameters.to_string(),
    }
}

/// The model recommended for a machine with this much memory (in GB): the 8B model above
/// 16 GB, the 4B model above 8 GB, else the 1.7B model.
pub open spec fn recommended_registry_model(system_ram_gb: u64) -> Seq<char> {
    if system_ram_gb > 16 {
        "qwen3_base_8b"@
    } else if system_ram_gb > 8 {
        "qwen3_base_4b"@
    } else {
        "qwen3_base_1.7b"@
    }
}

/// The models the manager offers on a machine with this much memory, in order; the
/// recommended one is the default.
pub open spec fn model_registry(system_ram_gb: u64) -> Seq<MlxModelInfoView> {
    let n = MlxModelStatus::NotDownloaded;
    seq![
        ("qwen3_base_0.6b"@, "Qwen 3 Base 0.6B"@, "Ultra-fast responses. Best for simple corrections."@,
            "mlx-community/Qwen3-0.6B-4bit"@, 419430400u64, n, false, "~1 GB"@),
        ("qwen3_base_1.7b"@, "Qwen 3 Base 1.7B"@, "Good speed and quality. Great for 8GB Macs."@,
            "mlx-community/Qwen3-1.7B-4bit"@, 1073741824u64, n, system_ram_gb <= 8, "~2-3 GB"@),
        ("qwen3_base_4b"@, "Qwen 3 Base 4B"@, "Strong reasoning and writing quality."@,
            "mlx-community/Qwen3-4B-4bit"@, 2411724800u64, n, 8 < system_ram_gb && system_ram_gb <= 16, "~4-5 GB"@),
        ("qwen3_base_8b"@, "Qwen 3 Base 8B"@, "Best quality and complex reasoning."@,
            "mlx-community/Qwen3-8B-4bit"@, 4928307200u64, n, system_ram_gb > 16, "~7-8 GB"@),
        ("gemma3_base_1b"@, "Gemma 3 Base 1B"@, "Lightweight with good multi-language support."@,
            "mlx-community/gemma-3-1b-it-4bit"@, 838860800u64, n, false, "~1 GB"@),
        ("gemma3_base_4b"@, "Gemma 3 Base 4B"@, "Excellent multi-language and translation."@,
            "mlx-community/gemma-3-4b-it-4bit"@, 2411724800u64, n, false, "~3 GB"@),
        ("smollm3_base_3b"@, "SmolLM 3 Base 3B"@, "HuggingFace's efficient small model."@,
            "mlx-community/SmolLM2-1.7B-Instruct-4bit"@, 1887436800u64, n, false, "~2 GB"@),
    ]
}

/// The initial registry of models for a machine with this much memory (in GB).
pub fn create_model_registry(system_ram_gb: u64) -> (r: Vec<MlxModelInfo>)
    ensures
        model_info_views(r@) == model_registry(system_ram_gb),
{
    let mut models: Vec<MlxModelInfo> = Vec::new();
    models.push(new_model_info("qwen3_base_0.6b", "Qwen 3 Base 0.6B",
        "Ultra-fast responses. Best for simple corrections.", "mlx-community/Qwen3-0.6B-4bit",
        400 * 1024 * 1024, false, "~1 GB"));
    models.push(new_model_info("qwen3_base_1.7b", "Qwen 3 Base 1.7B",
        "Good speed and quality. Great for 8GB Macs.", "mlx-community/Qwen3-1.7B-4bit",
        1024 * 1024 * 1024, system_ram_gb <= 8, "~2-3 GB"));
    models.push(new_model_info("qwen3_base_4b", "Qwen 3 Base 4B",
        "Strong reasoning and writing quality.", "mlx-community/Qwen3-4B-4bit",
        2300 * 1024 * 1024, 8 < system_ram_gb && system_ram_gb <= 16, "~4-5 GB"));
    models.push(new_model_info("qwen3_base_8b", "Qwen 3 Base 8B",
        "Best quality and complex reasoning.", "mlx-community/Qwen3-8B-4bit",
        4700 * 1024 * 1024, system_ram_gb > 16, "~7-8 GB"));
    models.push(new_model_info("gemma3_base_1b", "Gemma 3 Base 1B",
        "Lightweight with good multi-language support.", "mlx-community/gemma-3-1b-it-4bit",
        800 * 1024 * 1024, false, "~1 GB"));
    models.push(new_model_info("gemma3_base_4b", "Gemma 3 Base 4B",
        "Excellent multi-language and translation.", "mlx-community/gemma-3-4b-it-4bit",
        2300 * 1024 * 1024, false, "~3 GB"));
    models.push(new_model_info("smollm3_base_3b", "SmolLM 3 Base 3B",
        "HuggingFace's efficient small model.", "mlx-community/SmolLM2-1.7B-Instruct-4bit",
        1800 * 1024 * 1024, false, "~2 GB"));
    assert(model_info_views(models@) =~= model_registry(system_ram_gb));
    models
}

/// Whatever the memory, exactly one model of the registry is the default, and it is the
/// recommended one.
pub proof fn law_registry_has_one_default(system_ram_gb: u64)
    ensures
        exists|i: int|
            0 <= i < model_registry(system_ram_gb).len() && (#[trigger] model_registry(
                system_ram_gb,
            )[i]).6 && model_registry(system_ram_gb)[i].0 == recommended_registry_model(
                system_ram_gb,
            ) && forall|j: int|
                0 <= j < model_registry(system_ram_gb).len() && (#[trigger] model_registry(
                    system_ram_gb,
                )[j]).6 ==> j == i,
{
    let r = model_registry(system_ram_gb);
    if system_ram_gb > 16 {
        assert(r[3].6);
    } else if system_ram_gb > 8 {
        assert(r[2].6);
    } else {
        assert(r[1].6);
    }
}

/// Space kept free on top of a model's size when it is downloaded.
pub const DISK_SPACE_BUFFER_BYTES: u64 = 104_857_600;

/// The available kilobytes that `df -k` reports: the fourth column of its second line.
pub open spec fn df_available_kb(output: Seq<char>) -> Option<u64> {
    let lines = split_on(output, '\n');
    if lines.len() < 2 {
        None
    } else if words(lines[1]).len() < 4 {
        None
    } else {
        parsed_u64(words(lines[1])[3])
    }
}

/// Why a download of `required_bytes` does not fit, from what `df -k` printed (`None` when it
/// could not be run): the available space must cover the size and the buffer. Output that
/// cannot be read lets the download go ahead.
pub open spec fn disk_space_error(df_output: Option<Seq<char>>, required_bytes: u64) -> Option<
    Seq<char>,
> {
    match df_output {
        None => None,
        Some(output) => match df_available_kb(output) {
            None => None,
            Some(kb) => {
                let available = kb * 1024;
                let needed = required_bytes + DISK_SPACE_BUFFER_BYTES;
                if available < needed {
                    Some(
                        "Insufficient disk space. Required: "@ + decimal((needed / 1048576) as nat)
                            + " MB, Available: "@ + decimal((available / 1048576) as nat)
                            + " MB"@,
                    )
                } else {
                    None
                }
            },
        },
    }
}

/// Checks that a download of `required_bytes` fits on the disk.
pub fn check_disk_space(df_output: Option<&str>, required_bytes: u64) -> (r: Result<(), String>)
    ensures
        match disk_space_error(
            match df_output {
                Some(o) => Some(o@),
                None => None,
            },
            required_bytes,
        ) {
            Some(m) => r matches Err(e) && e@ == m,
            None => r is Ok,
        },
{
    let output = match df_output {
        Some(o) => o,
        None => {
            return Ok(());
        },
    };
    let lines = split_chars(&chars_of(output), '\n');
    if lines.len() < 2 {
        return Ok(());
    }
    let columns = split_words(&lines[1]);
    if columns.len() < 4 {
        return Ok(());
    }
    proof {
        assert(views(columns@)[3] == columns@[3]@);
    }
    let kb = match parse_u64_chars(&columns[3]) {
        Some(kb) => kb,
        None => {
            return Ok(());
        },
    };
    let available: u128 = kb as u128 * 1024;
    let needed: u128 = required_bytes as u128 + DISK_SPACE_BUFFER_BYTES as u128;
    if available < needed {
        let needed_mb = (needed / 1048576) as u64;
        let available_mb = (available / 1048576) as u64;
        let mut message = chars_of("Insufficient disk space. Required: ");
        crate::text::append_chars(&mut message, &u64_to_decimal(needed_mb));
        crate::text::append_chars(&mut message, &chars_of(" MB, Available: "));
        crate::text::append_chars(&mut message, &u64_to_decimal(available_mb));
        crate::text::append_chars(&mut message, &chars_of(" MB"));
        return Err(string_from_chars(&message));
    }
    Ok(())
}

/// The memory assumed when `sysctl` cannot tell, in GB.
pub const DEFAULT_SYSTEM_MEMORY_GB: u64 = 16;

/// The machine's memory in whole GB from what `sysctl -n hw.memsize` printed (`None` when it
/// could not be run): the trimmed output read as bytes; 16 GB when that fails.
pub open spec fn memory_gb_from_sysctl(output: Option<Seq<char>>) -> u64 {
    match output {
        Some(o) => match parsed_u64(trim(o)) {
            Some(bytes) => bytes / 1073741824,
            None => DEFAULT_SYSTEM_MEMORY_GB,
        },
        None => DEFAULT_SYSTEM_MEMORY_GB,
    }
}

/// The machine's memory in GB.
pub fn get_system_memory_gb(sysctl_output: Option<&str>) -> (r: u64)
    ensures
        r == memory_gb_from_sysctl(
            match sysctl_output {
                Some(o) => Some(o@),
                None => None,
            },
        ),
{
    match sysctl_output {
        Some(o) => match parse_u64_chars(&trim_chars(&chars_of(o))) {
            Some(bytes) => bytes / 1073741824,
            None => DEFAULT_SYSTEM_MEMORY_GB,
        },
        None => DEFAULT_SYSTEM_MEMORY_GB,
    }
}

/// The byte counts of a download of several files, one after the other. Counts wrap
/// around on overflow, as atomic additions do.
#[derive(Clone, Copy, Debug, PartialEq, Eq)]
pub struct DownloadByteCounter {
    /// The size of the file being downloaded.
    pub current_file_total: u64,
    /// The bytes of the current file downloaded so far.
    pub current_file_downloaded: u64,
    /// The bytes of the files already finished.
    pub previous_files_bytes: u64,
    /// The size of all the files.
    pub grand_total_bytes: u64,
}

impl DownloadByteCounter {
    /// Nothing downloaded yet.
    pub fn new() -> (r: Self)
        ensures
            r == (DownloadByteCounter {
                current_file_total: 0,
                current_file_downloaded: 0,
                previous_files_bytes: 0,
                grand_total_bytes: 0,
            }),
    {
        DownloadByteCounter {
            current_file_total: 0,
            current_file_downloaded: 0,
            previous_files_bytes: 0,
            grand_total_bytes: 0,
        }
    }

    /// Records the size of all the files.
    pub fn set_grand_total(&mut self, total: u64)
        ensures
            *final(self) == (DownloadByteCounter { grand_total_bytes: total, ..*old(self) }),
    {
        self.grand_total_bytes = total;
    }

    /// A file of `size` bytes starts.
    pub fn start_file(&mut self, size: u64)
        ensures
            *final(self) == (DownloadByteCounter {
                current_file_total: size,
                current_file_downloaded: 0,
                ..*old(self)
            }),
    {
        self.current_file_total = size;
        self.current_file_downloaded = 0;
    }

    /// `size` more bytes of the current file arrived.
    pub fn add_bytes(&mut self, size: u64)
        ensures
            *final(self) == (DownloadByteCounter {
                current_file_downloaded: ((old(self).current_file_downloaded + size) % 0x1_0000_0000_0000_0000) as u64,
                ..*old(self)
            }),
    {
        self.current_file_downloaded = self.current_file_downloaded.wrapping_add(size);
    }

    /// The current file is finished: its bytes join those of the finished files.
    pub fn mark_file_complete(&mut self)
        ensures
            *final(self) == (DownloadByteCounter {
                previous_files_bytes: ((old(self).previous_files_bytes + old(self).current_file_downloaded)
                    % 0x1_0000_0000_0000_0000) as u64,
                current_file_downloaded: 0,
                current_file_total: 0,
                ..*old(self)
            }),
    {
        self.previous_files_bytes = self.previous_files_bytes.wrapping_add(self.current_file_downloaded);
        self.current_file_downloaded = 0;
        self.current_file_total = 0;
    }

    /// The bytes downloaded so far, of all the files.
    pub fn total_downloaded(&self) -> (r: u64)
        ensures
            r == (self.previous_files_bytes + self.current_file_downloaded) % 0x1_0000_0000_0000_0000,
    {
        self.previous_files_bytes.wrapping_add(self.current_file_downloaded)
    }
}

/// Progress events are sent at most this often while bytes arrive, in milliseconds.
pub const PROGRESS_EMIT_INTERVAL_MS: u64 = 100;

/// Whether a progress event is due, `elapsed_ms` after the last one.
pub fn progress_emit_due(elapsed_ms: u64) -> (r: bool)
    ensures
        r == (elapsed_ms >= PROGRESS_EMIT_INTERVAL_MS),
{
    elapsed_ms >= PROGRESS_EMIT_INTERVAL_MS
}

/// The post-processing provider ID of the local models.
pub const LOCAL_MLX_PROVIDER_ID: &'static str = "local_mlx";

/// The model used for post-processing when none was chosen.
pub const DEFAULT_MLX_MODEL_ID: &'static str = "qwen3_base_1.7b";

/// The model chosen for post-processing, or the default one.
pub fn selected_text_model(configured: Option<&str>) -> (r: String)
    ensures
        r@ == match configured {
            Some(c) => c@,
            None => DEFAULT_MLX_MODEL_ID@,
        },
{
    match configured {
        Some(c) => c.to_string(),
        None => DEFAULT_MLX_MODEL_ID.to_string(),
    }
}

/// Which model must be loaded before text is processed: none while a model is loaded;
/// otherwise the selected model if it is downloaded, none if it is ready; any other status
/// (or an unknown model) is an error.
pub open spec fn text_model_decision(
    model_loaded: bool,
    selected: Seq<char>,
    status: Option<MlxModelStatus>,
) -> Result<Option<Seq<char>>, Seq<char>> {
    if model_loaded {
        Ok(None)
    } else {
        match status {
            Some(MlxModelStatus::Downloaded) => Ok(Some(selected)),
            Some(MlxModelStatus::Ready) => Ok(None),
            _ => Err("Selected MLX model is not downloaded: "@ + selected),
        }
    }
}

/// Decides which model to load before processing text, from whether a model is loaded,
/// the selected model and its status.
pub fn text_model_to_load(
    model_loaded: bool,
    selected: &str,
    status: Option<MlxModelStatus>,
) -> (r: Result<Option<String>, String>)
    ensures
        match text_model_decision(model_loaded, selected@, status) {
            Ok(Some(m)) => r matches Ok(Some(x)) && x@ == m,
            Ok(None) => r matches Ok(None),
            Err(e) => r matches Err(x) && x@ == e,
        },
{
    if model_loaded {
        return Ok(None);
    }
    match status {
        Some(MlxModelStatus::Downloaded) => Ok(Some(selected.to_string())),
        Some(MlxModelStatus::Ready) => Ok(None),
        _ => Err(crate::text::concat_str("Selected MLX model is not downloaded: ", selected)),
    }
}

/// A generation that failed because the sidecar had no model loaded is retried once after
/// reloading the model.
pub fn generation_needs_reload(error_message: &str) -> (r: bool)
    ensures
        r == (find_pos(error_message@, "No model loaded"@) is Some),
{
    find_chars(&chars_of(error_message), &chars_of("No model loaded")).is_some()
}

/// What a download request does.
#[derive(Clone, Copy, Debug, PartialEq, Eq, Structural)]
pub enum DownloadStart {
    /// The model is on disk already; nothing to do.
    AlreadyDownloaded,
    /// Check the disk space, then download.
    Start,
}

/// Why a model cannot be downloaded now, or what its download does: the model must be
/// known (by its status) and no other download may run; a model on disk needs nothing.
pub open spec fn download_request(
    model_id: Seq<char>,
    status: Option<MlxModelStatus>,
    download_in_progress: bool,
) -> Result<DownloadStart, Seq<char>> {
    match status {
        None => Err("Model not found: "@ + model_id),
        Some(st) => if download_in_progress {
            Err("Another download is already in progress"@)
        } else if st == MlxModelStatus::Downloaded || st == MlxModelStatus::Ready {
            Ok(DownloadStart::AlreadyDownloaded)
        } else {
            Ok(DownloadStart::Start)
        },
    }
}

/// Checks a download request.
pub fn check_download_request(
    model_id: &str,
    status: Option<MlxModelStatus>,
    download_in_progress: bool,
) -> (r: Result<DownloadStart, String>)
    ensures
        match download_request(model_id@, status, download_in_progress) {
            Ok(d) => r == Ok::<DownloadStart, String>(d),
            Err(e) => r matches Err(m) && m@ == e,
        },
{
    let st = match status {
        Some(st) => st,
        None => {
            return Err(crate::text::concat_str("Model not found: ", model_id));
        },
    };
    if download_in_progress {
        return Err("Another download is already in progress".to_string());
    }
    if st == MlxModelStatus::Downloaded || st == MlxModelStatus::Ready {
        return Ok(DownloadStart::AlreadyDownloaded);
    }
    Ok(DownloadStart::Start)
}

/// A model's status after its download ended: downloaded on success, back to not
/// downloaded when the error says it was cancelled, failed otherwise.
pub open spec fn status_after_download(error: Option<Seq<char>>) -> MlxModelStatus {
    match error {
        None => MlxModelStatus::Downloaded,
        Some(e) => if find_pos(e, "cancelled"@) is Some {
            MlxModelStatus::NotDownloaded
        } else {
            MlxModelStatus::DownloadFailed
        },
    }
}

/// The status a model takes when its download ends, with the download's error if any.
pub fn download_finished_status(error: Option<&str>) -> (r: MlxModelStatus)
    ensures
        r == status_after_download(
            match error {
                Some(e) => Some(e@),
                None => None,
            },
        ),
{
    match error {
        None => MlxModelStatus::Downloaded,
        Some(e) => {
            if find_chars(&chars_of(e), &chars_of("cancelled")).is_some() {
                MlxModelStatus::NotDownloaded
            } else {
                MlxModelStatus::DownloadFailed
            }
        },
    }
}

/// A download may be retried this many times.
pub const MAX_DOWNLOAD_RETRIES: u8 = 3;

/// What a retry request retries: the running download (counting the retry) while retries
/// are left, or else the first model whose download failed.
pub open spec fn retry_request(
    running_retries: Option<u8>,
    failed_models: Seq<Seq<char>>,
) -> Result<(Option<u8>, Option<Seq<char>>), Seq<char>> {
    match running_retries {
        Some(n) => if n >= MAX_DOWNLOAD_RETRIES {
            Err("Maximum retry attempts (3) reached"@)
        } else {
            Ok((Some((n + 1) as u8), None))
        },
        None => if failed_models.len() == 0 {
            Err("No failed download to retry"@)
        } else {
            Ok((None, Some(failed_models[0])))
        },
    }
}

/// Decides a retry: for a running download with `running_retries` retries so far, the new
/// retry count; otherwise the model to download again, from the models whose download
/// failed.
pub fn plan_download_retry(running_retries: Option<u8>, failed_models: &Vec<String>) -> (r: Result<
    (Option<u8>, Option<String>),
    String,
>)
    ensures
        match retry_request(running_retries, crate::history::string_views(failed_models@)) {
            Ok((count, model)) => r matches Ok((c, m)) && c == count && match model {
                Some(id) => m matches Some(x) && x@ == id,
                None => m is None,
            },
            Err(e) => r matches Err(x) && x@ == e,
        },
{
    match running_retries {
        Some(n) => {
            if n >= MAX_DOWNLOAD_RETRIES {
                return Err("Maximum retry attempts (3) reached".to_string());
            }
            Ok((Some(n + 1), None))
        },
        None => {
            if failed_models.len() == 0 {
                return Err("No failed download to retry".to_string());
            }
            Ok((None, Some(failed_models[0].clone())))
        },
    }
}

/// Why a model cannot be deleted: while it downloads, while it is loaded, or when it is
/// unknown.
pub open spec fn delete_error(
    model_id: Seq<char>,
    downloading: Option<Seq<char>>,
    loaded: Option<Seq<char>>,
    known: bool,
) -> Option<Seq<char>> {
    if downloading == Some(model_id) {
        Some("Cannot delete model while downloading"@)
    } else if loaded == Some(model_id) {
        Some("Cannot delete model while it is loaded"@)
    } else if !known {
        Some("Model not found: "@ + model_id)
    } else {
        None
    }
}

/// Checks that a model can be deleted, from the model being downloaded and the one loaded
/// (if any) and whether the model is known.
pub fn check_delete_model(
    model_id: &str,
    downloading: Option<&str>,
    loaded: Option<&str>,
    known: bool,
) -> (r: Result<(), String>)
    ensures
        match delete_error(
            model_id@,
            crate::text::opt_str_view(downloading),
            crate::text::opt_str_view(loaded),
            known,
        ) {
            Some(e) => r matches Err(m) && m@ == e,
            None => r is Ok,
        },
{
    match downloading {
        Some(d) => {
            if crate::text::str_equals(d, model_id) {
                return Err("Cannot delete model while downloading".to_string());
            }
        },
        None => {},
    }
    match loaded {
        Some(l) => {
            if crate::text::str_equals(l, model_id) {
                return Err("Cannot delete model while it is loaded".to_string());
            }
        },
        None => {},
    }
    if !known {
        return Err(crate::text::concat_str("Model not found: ", model_id));
    }
    Ok(())
}

/// A download is retried at most three times: from a running download that has used all
/// its retries, no retry is possible, and each retry counts one more.
pub proof fn law_retries_are_bounded(n: u8, failed_models: Seq<Seq<char>>)
    ensures
        n >= MAX_DOWNLOAD_RETRIES ==> retry_request(Some(n), failed_models) is Err,
        n < MAX_DOWNLOAD_RETRIES ==> retry_request(Some(n), failed_models) == Ok::<
            (Option<u8>, Option<Seq<char>>),
            Seq<char>,
        >((Some((n + 1) as u8), None)),
{
}

} // verus!
