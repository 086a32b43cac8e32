use thesis_rewriter::config::{
    add_downloaded, model_path_components, sampler_seed, worker_thread_count, DEFAULT_CONTEXT_TOKENS,
    MAX_GENERATED_TOKENS, MODEL_DISPLAY_NAME, MODEL_FILE, MODEL_REPO, MODEL_URL,
};

#[test]
fn model_path_matches_documented_layout() {
    let parts = model_path_components();
    assert_eq!(parts, vec!["models", "Qwen--Qwen3-1.7B-GGUF", "Qwen3-1.7B-Q8_0.gguf"]);
    assert_eq!(parts.join("/"), "models/Qwen--Qwen3-1.7B-GGUF/Qwen3-1.7B-Q8_0.gguf");
}

#[test]
fn model_constants_match_documentation() {
    assert_eq!(MODEL_REPO, "Qwen/Qwen3-1.7B-GGUF");
    assert_eq!(MODEL_FILE, "Qwen3-1.7B-Q8_0.gguf");
    assert_eq!(
        MODEL_URL,
        "https://huggingface.co/Qwen/Qwen3-1.7B-GGUF/resolve/main/Qwen3-1.7B-Q8_0.gguf"
    );
    assert_eq!(MODEL_DISPLAY_NAME, "Qwen3-1.7B-GGUF Q8_0");
    assert_eq!(DEFAULT_CONTEXT_TOKENS, 4096);
    assert_eq!(MAX_GENERATED_TOKENS, 700);
}

#[test]
fn worker_threads_default_to_four_when_unknown() {
    assert_eq!(worker_thread_count(None), 4);
}

#[test]
fn worker_threads_leave_one_core_and_stay_in_range() {
    assert_eq!(worker_thread_count(Some(1)), 2);
    assert_eq!(worker_thread_count(Some(2)), 2);
    assert_eq!(worker_thread_count(Some(3)), 2);
    assert_eq!(worker_thread_count(Some(4)), 3);
    assert_eq!(worker_thread_count(Some(8)), 7);
    assert_eq!(worker_thread_count(Some(9)), 8);
    assert_eq!(worker_thread_count(Some(64)), 8);
    assert_eq!(worker_thread_count(Some(usize::MAX)), 8);
    assert_eq!(worker_thread_count(Some(0)), 2);
}

#[test]
fn sampler_seed_truncates_seconds() {
    assert_eq!(sampler_seed(None), 0);
    assert_eq!(sampler_seed(Some(1_700_000_000)), 1_700_000_000);
    assert_eq!(sampler_seed(Some(0x1_0000_0005)), 5);
    assert_eq!(sampler_seed(Some(u64::MAX)), u32::MAX);
}

#[test]
fn downloaded_bytes_accumulate() {
    assert_eq!(add_downloaded(0, 0), 0);
    assert_eq!(add_downloaded(1024, 4096), 5120);
    assert_eq!(add_downloaded(u64::MAX - 1, 1), u64::MAX);
}
