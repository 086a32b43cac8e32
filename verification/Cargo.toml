[package]
name = "thesis_rewriter"
version = "0.1.0"
edition = "2021"
publish = false

[dependencies]
llama-cpp-2 = "=0.1.160"
encoding_rs = "0.8"
reqwest = { version = "0.12", default-features = false, features = ["stream", "rustls-tls"] }
tokio = { version = "1", features = ["fs", "io-util"] }
futures-util = "0.3"
serde = { version = "1", features = ["derive"] }
