use thesis_rewriter::error::RewriteError;
use thesis_rewriter::state::{load_status, LoadPlan, ModelLoadStatus, ModelState};

fn path() -> String {
    "/data/models/Qwen--Qwen3-1.7B-GGUF/Qwen3-1.7B-Q8_0.gguf".to_string()
}

#[test]
fn fresh_state_needs_setup() {
    let state = ModelState::new();
    assert!(!state.backend_ready());
    assert!(!state.model_loaded());
    assert_eq!(state.readiness(), Err(RewriteError::BackendNotInitialized));
    assert_eq!(
        state.current_status(false, path(), None),
        ModelLoadStatus {
            downloaded: false,
            loaded: false,
            busy: false,
            model_name: "Qwen3-1.7B-GGUF Q8_0".to_string(),
            model_path: Some(path()),
            model_bytes: None,
            message: "Model setup required".to_string(),
        }
    );
}

#[test]
fn downloaded_but_not_loaded_status() {
    let state = ModelState::new();
    let status = state.current_status(true, path(), Some(1_830_000_000));
    assert_eq!(status.message, "Model downloaded but not loaded");
    assert!(status.downloaded && !status.loaded && !status.busy);
    assert_eq!(status.model_bytes, Some(1_830_000_000));
}

#[test]
fn first_load_initializes_backend() {
    let state = ModelState::new();
    assert_eq!(state.load_plan(&path()), LoadPlan::Load { init_backend: true });
}

#[test]
fn load_then_reload_reuses_model() {
    let mut state = ModelState::new();
    state.record_backend_ready();
    assert_eq!(state.load_plan(&path()), LoadPlan::Load { init_backend: false });
    assert_eq!(state.readiness(), Err(RewriteError::ModelNotLoaded));
    state.record_model_loaded(path());
    assert_eq!(state.load_plan(&path()), LoadPlan::AlreadyLoaded);
    assert_eq!(state.readiness(), Ok(()));
    assert_eq!(state.load_plan(&"/other/model.gguf".to_string()), LoadPlan::Load { init_backend: false });
}

#[test]
fn loaded_status_is_ready_even_if_file_is_gone() {
    let mut state = ModelState::new();
    state.record_backend_ready();
    state.record_model_loaded(path());
    for downloaded in [true, false] {
        let status = state.current_status(downloaded, path(), None);
        assert_eq!(status.message, "Model loaded and ready");
        assert!(status.loaded);
        assert_eq!(status.downloaded, downloaded);
        assert_eq!(status.model_name, "Qwen3-1.7B-GGUF Q8_0");
    }
}

#[test]
fn load_status_names_the_configured_model() {
    assert_eq!(
        load_status(false, false, true, Some(path()), None, "Downloading Qwen3 multilingual writing model"),
        ModelLoadStatus {
            downloaded: false,
            loaded: false,
            busy: true,
            model_name: "Qwen3-1.7B-GGUF Q8_0".to_string(),
            model_path: Some(path()),
            model_bytes: None,
            message: "Downloading Qwen3 multilingual writing model".to_string(),
        }
    );
    let missing = load_status(false, false, false, Some(path()), None, "Model file not downloaded yet");
    assert_eq!(missing.message, "Model file not downloaded yet");
    assert!(!missing.busy);
}
