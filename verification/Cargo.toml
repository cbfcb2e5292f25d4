[package]
name = "dsrv_lsp"
version = "0.1.0"
edition = "2021"
publish = false

[dependencies]
ropey = "=1.6.1"
regex = "=1.13.1"
tower-lsp-server = "=0.23.0"
tokio = { version = "=1.54.1", features = ["full"] }
dashmap = "=6.2.1"
tracing = "=0.1.44"
tracing-subscriber = "=0.3.23"
