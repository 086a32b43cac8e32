# thesis_rewriter

The verified core of a desktop app that rewrites academic text with a local
GGUF language model.

- `src/` (Verus): input trimming, the rewrite prompt and its styles, the
  model-state bookkeeping (load plans, readiness, status events), the token
  budget of a generation, the streaming UTF-8 decoding of generated pieces
  (through `encoding_rs`), and configuration (model location, worker
  threads, sampler seed).
- `app/`: the Tauri shell — commands and events, the model download
  (`reqwest`, `tokio`), and the llama.cpp calls (`llama-cpp-2`), driven by
  the library's decisions.
- `tests/`: concrete checks of every public function.
