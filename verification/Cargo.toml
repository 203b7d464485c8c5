[package]
name = "lsp_rpc_core"
version = "0.1.0"
edition = "2021"
publish = false

[dependencies]
dashmap = "5"
futures = "0.3"
lsp-types = "0.94"
serde = { version = "1", features = ["derive"] }
serde_json = "1"
tracing = "0.1"
