[package]
name = "lapce_rust"
version = "0.1.0"
edition = "2021"
publish = false

[dependencies]
anyhow = "=1.0.104"
flate2 = "=1.1.10"
lapce-plugin = "=0.1.2"
lsp-types = "=0.94.1"
serde = { version = "=1.0.229", features = ["derive"] }
serde_json = "=1.0.154"
