[package]
name = "lsp_core"
version = "0.1.0"
edition = "2021"
publish = false

[dependencies]
tower-lsp = "*"
tokio = { version = "*", features = ["rt-multi-thread", "io-std", "io-util"] }
serde_json = "*"
