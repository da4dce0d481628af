//! The local MLX models: the catalog, the choice of download source, the catalog provider,
//! the manager's decisions, and the fixed model list of the first manager.

pub mod catalog;
pub mod downloader;
pub mod manager;
pub mod provider;

use vstd::prelude::*;
use crate::mlx::manager::{model_info_views, new_model_info, MlxModelInfo, MlxModelInfoView, MlxModelStatus};

verus! {

/// The model selected when none was chosen.
pub const DEFAULT_MLX_MODEL_ID: &'static str = "qwen3_base_1.7b";

/// The fixed list of models of the first manager, in order; the 1.7B model is the default.
pub open spec fn fixed_model_registry() -> Seq<MlxModelInfoView> {
    let n = MlxModelStatus::NotDownloaded;
    seq![
        ("qwen3_base_0.6b"@, "Qwen 3 Base 0.6B"@, "Fastest, smallest model. Good for quick corrections."@,
            "mlx-community/Qwen3-0.6B-4bit"@, 419430400u64, n, false, "0.6B"@),
        ("qwen3_base_1.7b"@, "Qwen 3 Base 1.7B"@,
            "Best balance of speed and quality. Recommended for most users."@,
            "mlx-community/Qwen3-1.7B-4bit"@, 1073741824u64, n, true, "1.7B"@),
        ("qwen3_base_4b"@, "Qwen 3 Base 4B"@, "Higher quality for powerful machines."@,
            "mlx-community/Qwen3-4B-4bit"@, 2411724800u64, n, false, "4B"@),
        ("qwen3_base_8b"@, "Qwen 3 Base 8B"@, "Best quality. Requires 16GB+ RAM."@,
            "mlx-community/Qwen3-8B-4bit"@, 4928307200u64, n, false, "8B"@),
        ("gemma3_base_1b"@, "Gemma 3 Base 1B"@, "Small multi-language model."@,
            "mlx-community/gemma-3-1b-it-4bit"@, 838860800u64, n, false, "1B"@),
        ("gemma3_base_4b"@, "Gemma 3 Base 4B"@, "Multi-language support with good quality."@,
            "mlx-community/gemma-3-4b-it-4bit"@, 2411724800u64, n, false, "4B"@),
        ("smollm3_base_3b"@, "SmolLM 3 Base 3B"@, "Multi-language alternative with good performance."@,
            "mlx-community/SmolLM2-1.7B-Instruct-4bit"@, 1887436800u64, n, false, "3B"@),
    ]
}

/// The first manager's model list.
pub fn create_model_registry() -> (r: Vec<MlxModelInfo>)
    ensures
        model_info_views(r@) == fixed_model_registry(),
{
    let mut models: Vec<MlxModelInfo> = Vec::new();
    models.push(new_model_info("qwen3_base_0.6b", "Qwen 3 Base 0.6B",
        "Fastest, smallest model. Good for quick corrections.", "mlx-community/Qwen3-0.6B-4bit",
        400 * 1024 * 1024, false, "0.6B"));
    models.push(new_model_info("qwen3_base_1.7b", "Qwen 3 Base 1.7B",
        "Best balance of speed and quality. Recommended for most users.",
        "mlx-community/Qwen3-1.7B-4bit", 1024 * 1024 * 1024, true, "1.7B"));
    models.push(new_model_info("qwen3_base_4b", "Qwen 3 Base 4B",
        "Higher quality for powerful machines.", "mlx-community/Qwen3-4B-4bit",
        2300 * 1024 * 1024, false, "4B"));
    models.push(new_model_info("qwen3_base_8b", "Qwen 3 Base 8B",
        "Best quality. Requires 16GB+ RAM.", "mlx-community/Qwen3-8B-4bit",
        4700 * 1024 * 1024, false, "8B"));
    models.push(new_model_info("gemma3_base_1b", "Gemma 3 Base 1B",
        "Small multi-language model.", "mlx-community/gemma-3-1b-it-4bit",
        800 * 1024 * 1024, false, "1B"));
    models.push(new_model_info("gemma3_base_4b", "Gemma 3 Base 4B",
        "Multi-language support with good quality.", "mlx-community/gemma-3-4b-it-4bit",
        2300 * 1024 * 1024, false, "4B"));
    models.push(new_model_info("smollm3_base_3b", "SmolLM 3 Base 3B",
        "Multi-language alternative with good performance.",
        "mlx-community/SmolLM2-1.7B-Instruct-4bit", 1800 * 1024 * 1024, false, "3B"));
    assert(model_info_views(models@) =~= fixed_model_registry());
    models
}

/// The default of the fixed list is the model selected when none was chosen, and it is the
/// only default.
pub proof fn law_fixed_registry_default()
    ensures
        forall|i: int|
            0 <= i < fixed_model_registry().len() ==> ((#[trigger] fixed_model_registry()[i]).6
                <==> i == 1),
        fixed_model_registry()[1].0 == DEFAULT_MLX_MODEL_ID@,
{
}

} // verus!
