use vstd::prelude::*;

use crate::text::{replace_slashes, replace_slashes_with_dashes};

verus! {

/// Hugging Face repository that hosts the model.
pub const MODEL_REPO: &'static str = "Qwen/Qwen3-1.7B-GGUF";

/// File name of the GGUF model inside the repository.
pub const MODEL_FILE: &'static str = "Qwen3-1.7B-Q8_0.gguf";

/// Download address of the model file.
pub const MODEL_URL: &'static str = "https://huggingface.co/Qwen/Qwen3-1.7B-GGUF/resolve/main/Qwen3-1.7B-Q8_0.gguf";

/// Name under which the model is shown to the user.
pub const MODEL_DISPLAY_NAME: &'static str = "Qwen3-1.7B-GGUF Q8_0";

/// Directory below the application data folder that holds downloaded models.
pub const MODELS_DIR: &'static str = "models";

/// Size of the inference context, in tokens.
pub const DEFAULT_CONTEXT_TOKENS: u32 = 4096;

/// Largest number of tokens generated for one rewrite.
pub const MAX_GENERATED_TOKENS: usize = 700;

/// Logical and physical batch size given to the inference context.
pub const BATCH_TOKENS: u32 = 512;

/// The model file's location relative to the application data folder, as
/// path components: the models directory, the repository name with `/`
/// replaced by `--`, and the file name.
pub open spec fn spec_model_path_components() -> Seq<Seq<char>> {
    seq![MODELS_DIR@, replace_slashes(MODEL_REPO@), MODEL_FILE@]
}

/// Components of the model file's path below the application data folder.
pub fn model_path_components() -> (parts: Vec<String>)
    ensures
        parts@.map_values(|p: String| p@) == spec_model_path_components(),
{
    let mut parts: Vec<String> = Vec::new();
    parts.push(String::from_str(MODELS_DIR));
    parts.push(replace_slashes_with_dashes(MODEL_REPO));
    parts.push(String::from_str(MODEL_FILE));
    assert(parts@.map_values(|p: String| p@) =~= spec_model_path_components());
    parts
}

/// Number of worker threads for inference given the machine's available
/// parallelism: one less than what is available, kept between 2 and 8;
/// 4 when the parallelism is unknown.
pub open spec fn spec_worker_threads(available: Option<usize>) -> int {
    match available {
        None => 4,
        Some(n) => {
            let spare = if n == 0 { 0 } else { n - 1 };
            if spare < 2 { 2 } else if spare > 8 { 8 } else { spare }
        },
    }
}

/// Number of worker threads to give the inference context.
pub fn worker_thread_count(available: Option<usize>) -> (threads: i32)
    ensures
        threads == spec_worker_threads(available),
        2 <= threads <= 8,
{
    match available {
        None => 4,
        Some(n) => {
            let spare = n.saturating_sub(1);
            let count: usize = if spare < 2 {
                2
            } else if spare > 8 {
                8
            } else {
                spare
            };
            count as i32
        },
    }
}

/// Seed of the token sampler: the whole seconds elapsed since the Unix epoch,
/// truncated to 32 bits, or 0 when the clock is before the epoch.
pub fn sampler_seed(elapsed_secs: Option<u64>) -> (seed: u32)
    ensures
        seed == match elapsed_secs {
            None => 0,
            Some(s) => s % 0x1_0000_0000,
        },
{
    match elapsed_secs {
        None => 0,
        Some(s) => {
            assert(s as u32 == s % 0x1_0000_0000) by (bit_vector);
            s as u32
        },
    }
}

/// Running total of downloaded bytes after a chunk of `chunk_len` bytes.
pub fn add_downloaded(downloaded: u64, chunk_len: usize) -> (total: u64)
    requires
        downloaded + chunk_len <= u64::MAX,
    ensures
        total == downloaded + chunk_len,
{
    downloaded + chunk_len as u64
}

} // verus!
