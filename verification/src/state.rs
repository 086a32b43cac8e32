use vstd::prelude::*;

use crate::config::MODEL_DISPLAY_NAME;
use crate::error::RewriteError;

verus! {

/// Status message when a model is in memory.
pub const READY_MESSAGE: &'static str = "Model loaded and ready";

/// Status message when the model file exists but is not in memory.
pub const NOT_LOADED_MESSAGE: &'static str = "Model downloaded but not loaded";

/// Status message when the model file has not been downloaded.
pub const SETUP_REQUIRED_MESSAGE: &'static str = "Model setup required";

/// Status message when loading is asked for but the file is missing.
pub const NOT_DOWNLOADED_MESSAGE: &'static str = "Model file not downloaded yet";

/// Status message while the model file is downloaded.
pub const DOWNLOADING_MESSAGE: &'static str = "Downloading Qwen3 multilingual writing model";

/// Status message while the model file is read into memory.
pub const LOADING_MESSAGE: &'static str = "Loading model into local memory";

/// The model-status event sent to the user interface.
#[derive(Clone, Debug, PartialEq, Eq)]
pub struct ModelLoadStatus {
    pub downloaded: bool,
    pub loaded: bool,
    pub busy: bool,
    pub model_name: String,
    pub model_path: Option<String>,
    pub model_bytes: Option<u64>,
    pub message: String,
}

/// A model-status event with its strings taken by their views.
pub struct StatusView {
    pub downloaded: bool,
    pub loaded: bool,
    pub busy: bool,
    pub model_name: Seq<char>,
    pub model_path: Option<Seq<char>>,
    pub model_bytes: Option<u64>,
    pub message: Seq<char>,
}

pub open spec fn opt_view(s: Option<String>) -> Option<Seq<char>> {
    match s {
        Some(s) => Some(s@),
        None => None,
    }
}

impl View for ModelLoadStatus {
    type V = StatusView;

    open spec fn view(&self) -> StatusView {
        StatusView {
            downloaded: self.downloaded,
            loaded: self.loaded,
            busy: self.busy,
            model_name: self.model_name@,
            model_path: opt_view(self.model_path),
            model_bytes: self.model_bytes,
            message: self.message@,
        }
    }
}

/// Builds the status event announced while the model is being fetched,
/// loaded or found missing; it names the configured model.
pub fn load_status(
    downloaded: bool,
    loaded: bool,
    busy: bool,
    model_path: Option<String>,
    model_bytes: Option<u64>,
    message: &str,
) -> (status: ModelLoadStatus)
    ensures
        status@ == (StatusView {
            downloaded,
            loaded,
            busy,
            model_name: MODEL_DISPLAY_NAME@,
            model_path: opt_view(model_path),
            model_bytes,
            message: message@,
        }),
{
    ModelLoadStatus {
        downloaded,
        loaded,
        busy,
        model_name: String::from_str(MODEL_DISPLAY_NAME),
        model_path,
        model_bytes,
        message: String::from_str(message),
    }
}

/// The status message for a model that is or is not on disk and in memory.
pub open spec fn spec_status_message(downloaded: bool, loaded: bool) -> Seq<char> {
    if loaded {
        READY_MESSAGE@
    } else if downloaded {
        NOT_LOADED_MESSAGE@
    } else {
        SETUP_REQUIRED_MESSAGE@
    }
}

/// What the application knows of its inference engine: whether the engine
/// backend is initialized, whether a model is in memory, and from which
/// path and under which name the model was loaded.
pub struct ModelState {
    backend_ready: bool,
    model_loaded: bool,
    loaded_path: Option<String>,
    loaded_name: Option<String>,
}

/// The model state, with its strings taken by their views.
pub struct ModelStateView {
    pub backend_ready: bool,
    pub model_loaded: bool,
    pub loaded_path: Option<Seq<char>>,
    pub loaded_name: Option<Seq<char>>,
}

impl View for ModelState {
    type V = ModelStateView;

    closed spec fn view(&self) -> ModelStateView {
        ModelStateView {
            backend_ready: self.backend_ready,
            model_loaded: self.model_loaded,
            loaded_path: opt_view(self.loaded_path),
            loaded_name: opt_view(self.loaded_name),
        }
    }
}

impl ModelStateView {
    /// A model is only ever loaded through an initialized backend, the path
    /// is known exactly when a model is loaded, and a loaded model carries
    /// the configured display name.
    pub open spec fn wf(self) -> bool {
        &&& self.model_loaded ==> self.backend_ready
        &&& self.loaded_path is Some <==> self.model_loaded
        &&& self.loaded_name == if self.model_loaded {
            Some(MODEL_DISPLAY_NAME@)
        } else {
            None
        }
    }
}

/// How a request to load the model from some path is carried out.
#[derive(Clone, Copy, Debug, PartialEq, Eq, Structural)]
pub enum LoadPlan {
    /// The model from that path is already in memory.
    AlreadyLoaded,
    /// Read the model file; initialize the backend first when `init_backend`.
    Load { init_backend: bool },
}

/// The plan for loading the model at `path` in state `s`.
pub open spec fn spec_load_plan(s: ModelStateView, path: Seq<char>) -> LoadPlan {
    if s.loaded_path == Some(path) && s.model_loaded {
        LoadPlan::AlreadyLoaded
    } else {
        LoadPlan::Load { init_backend: !s.backend_ready }
    }
}

/// Whether a rewrite can run in state `s`, and if not, why.
pub open spec fn spec_readiness(s: ModelStateView) -> Result<(), RewriteError> {
    if !s.backend_ready {
        Err(RewriteError::BackendNotInitialized)
    } else if !s.model_loaded {
        Err(RewriteError::ModelNotLoaded)
    } else {
        Ok(())
    }
}

/// The status reported for state `s` when the model file is or is not on
/// disk at `path` with `bytes` bytes.
pub open spec fn spec_current_status(
    s: ModelStateView,
    downloaded: bool,
    path: Seq<char>,
    bytes: Option<u64>,
) -> StatusView {
    StatusView {
        downloaded,
        loaded: s.model_loaded,
        busy: false,
        model_name: match s.loaded_name {
            Some(name) => name,
            None => MODEL_DISPLAY_NAME@,
        },
        model_path: Some(path),
        model_bytes: bytes,
        message: spec_status_message(downloaded, s.model_loaded),
    }
}

/// The state once the engine backend has been initialized.
pub open spec fn spec_record_backend(s: ModelStateView) -> ModelStateView {
    ModelStateView { backend_ready: true, ..s }
}

/// The state once the model at `path` has been read into memory.
pub open spec fn spec_record_model(s: ModelStateView, path: Seq<char>) -> ModelStateView {
    ModelStateView {
        backend_ready: s.backend_ready,
        model_loaded: true,
        loaded_path: Some(path),
        loaded_name: Some(MODEL_DISPLAY_NAME@),
    }
}

/// The state after a request to load the model at `path` has been carried
/// out successfully along its plan.
pub open spec fn spec_after_load(s: ModelStateView, path: Seq<char>) -> ModelStateView {
    match spec_load_plan(s, path) {
        LoadPlan::AlreadyLoaded => s,
        LoadPlan::Load { init_backend } => spec_record_model(
            if init_backend { spec_record_backend(s) } else { s },
            path,
        ),
    }
}

/// The reported status passes on what was found on disk unchanged (whether
/// the file is there, its path and its size), reports the model in memory
/// exactly when one is loaded, is never busy, and carries the message for
/// its case: ready once loaded, else downloaded-but-not-loaded, else setup
/// required.
pub proof fn lemma_status_reports_inputs(
    s: ModelStateView,
    downloaded: bool,
    path: Seq<char>,
    bytes: Option<u64>,
)
    requires
        s.wf(),
    ensures
        spec_current_status(s, downloaded, path, bytes).downloaded == downloaded,
        spec_current_status(s, downloaded, path, bytes).model_path == Some(path),
        spec_current_status(s, downloaded, path, bytes).model_bytes == bytes,
        spec_current_status(s, downloaded, path, bytes).loaded == s.model_loaded,
        !spec_current_status(s, downloaded, path, bytes).busy,
        spec_current_status(s, downloaded, path, bytes).model_name == "Qwen3-1.7B-GGUF Q8_0"@,
        s.model_loaded ==> spec_current_status(s, downloaded, path, bytes).message
            == "Model loaded and ready"@,
        !s.model_loaded && downloaded ==> spec_current_status(s, downloaded, path, bytes).message
            == "Model downloaded but not loaded"@,
        !s.model_loaded && !downloaded ==> spec_current_status(s, downloaded, path, bytes).message
            == "Model setup required"@,
{
}

/// A successful load of the model at `path` leaves a well-formed state in
/// which that model is in memory, a rewrite can run, and loading the same
/// path again reuses the model instead of reading the file anew.
pub proof fn lemma_load_then_reload(s: ModelStateView, path: Seq<char>)
    requires
        s.wf(),
    ensures
        spec_after_load(s, path).wf(),
        spec_after_load(s, path).model_loaded,
        spec_after_load(s, path).loaded_path == Some(path),
        spec_readiness(spec_after_load(s, path)) == Ok::<(), RewriteError>(()),
        spec_load_plan(spec_after_load(s, path), path) == LoadPlan::AlreadyLoaded,
        spec_after_load(spec_after_load(s, path), path) == spec_after_load(s, path),
{
}

/// Once a model is in memory the status reports it loaded and ready, under
/// the name it was loaded with, whether or not the file is still on disk.
pub proof fn lemma_loaded_status(
    s: ModelStateView,
    path: Seq<char>,
    downloaded: bool,
    status_path: Seq<char>,
    bytes: Option<u64>,
)
    requires
        s.wf(),
    ensures
        spec_current_status(spec_after_load(s, path), downloaded, status_path, bytes).loaded,
        spec_current_status(spec_after_load(s, path), downloaded, status_path, bytes).message
            == READY_MESSAGE@,
        spec_current_status(spec_after_load(s, path), downloaded, status_path, bytes).model_name
            == MODEL_DISPLAY_NAME@,
        !spec_current_status(spec_after_load(s, path), downloaded, status_path, bytes).busy,
{
}

/// The backend is initialized at most once: once it is, no later plan asks
/// for it again, and no recorded step ever takes a loaded model away.
pub proof fn lemma_backend_initialized_once(s: ModelStateView, path: Seq<char>, other: Seq<char>)
    requires
        s.wf(),
    ensures
        spec_load_plan(spec_record_backend(s), other) != (LoadPlan::Load { init_backend: true }),
        spec_load_plan(spec_after_load(s, path), other) != (LoadPlan::Load { init_backend: true }),
        s.model_loaded ==> spec_after_load(s, path).model_loaded,
        s.model_loaded ==> spec_record_backend(s).model_loaded,
{
}

impl ModelState {
    /// The record of a model state is always well formed.
    #[verifier::type_invariant]
    closed spec fn inv(&self) -> bool {
        self@.wf()
    }

    /// The state at start-up: no backend, no model.
    pub fn new() -> (s: ModelState)
        ensures
            s@ == (ModelStateView {
                backend_ready: false,
                model_loaded: false,
                loaded_path: None,
                loaded_name: None,
            }),
            s@.wf(),
    {
        ModelState { backend_ready: false, model_loaded: false, loaded_path: None, loaded_name: None }
    }

    /// Whether the engine backend is initialized.
    pub fn backend_ready(&self) -> (b: bool)
        ensures
            b == self@.backend_ready,
    {
        self.backend_ready
    }

    /// Whether a model is in memory.
    pub fn model_loaded(&self) -> (b: bool)
        ensures
            b == self@.model_loaded,
    {
        self.model_loaded
    }

    /// Decides how to load the model at `path`: nothing to do when that
    /// model is in memory already, otherwise read it, initializing the
    /// backend first if it is not.
    pub fn load_plan(&self, path: &String) -> (plan: LoadPlan)
        ensures
            self@.wf(),
            plan == spec_load_plan(self@, path@),
    {
        proof {
            use_type_invariant(self);
        }
        let same_path = match &self.loaded_path {
            Some(p) => *p == *path,
            None => false,
        };
        if same_path && self.model_loaded {
            LoadPlan::AlreadyLoaded
        } else {
            LoadPlan::Load { init_backend: !self.backend_ready }
        }
    }

    /// Records that the engine backend has been initialized.
    pub fn record_backend_ready(&mut self)
        ensures
            old(self)@.wf(),
            final(self)@ == spec_record_backend(old(self)@),
            final(self)@.wf(),
    {
        proof {
            use_type_invariant(&*self);
        }
        self.backend_ready = true;
    }

    /// Records that the model at `path` has been read into memory; it is
    /// then known under the configured display name.
    pub fn record_model_loaded(&mut self, path: String)
        requires
            old(self)@.backend_ready,
        ensures
            old(self)@.wf(),
            final(self)@ == spec_record_model(old(self)@, path@),
            final(self)@.wf(),
    {
        proof {
            use_type_invariant(&*self);
        }
        *self = ModelState {
            backend_ready: self.backend_ready,
            model_loaded: true,
            loaded_path: Some(path),
            loaded_name: Some(String::from_str(MODEL_DISPLAY_NAME)),
        };
    }

    /// Checks that a rewrite can run: the backend must be initialized and a
    /// model must be in memory.
    pub fn readiness(&self) -> (r: Result<(), RewriteError>)
        ensures
            self@.wf(),
            r == spec_readiness(self@),
    {
        proof {
            use_type_invariant(self);
        }
        if !self.backend_ready {
            Err(RewriteError::BackendNotInitialized)
        } else if !self.model_loaded {
            Err(RewriteError::ModelNotLoaded)
        } else {
            Ok(())
        }
    }

    /// The status to report given whether the model file is on disk at
    /// `path` and its size.
    pub fn current_status(&self, downloaded: bool, path: String, bytes: Option<u64>) -> (status:
        ModelLoadStatus)
        ensures
            status@ == spec_current_status(self@, downloaded, path@, bytes),
    {
        let message = if self.model_loaded {
            String::from_str(READY_MESSAGE)
        } else if downloaded {
            String::from_str(NOT_LOADED_MESSAGE)
        } else {
            String::from_str(SETUP_REQUIRED_MESSAGE)
        };
        let model_name = match &self.loaded_name {
            Some(name) => name.clone(),
            None => String::from_str(MODEL_DISPLAY_NAME),
        };
        ModelLoadStatus {
            downloaded,
            loaded: self.model_loaded,
            busy: false,
            model_name,
            model_path: Some(path),
            model_bytes: bytes,
            message,
        }
    }
}

} // verus!
