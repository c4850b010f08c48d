[package]
name = "patchy"
version = "0.1.0"
edition = "2021"
publish = false

[dependencies]
indexmap = "2"
rand = "0.8"
colored = "2"
anyhow = "1"
reqwest = { version = "0.12", default-features = false }
serde = { version = "1", features = ["derive"] }
serde_json = "1"
toml = "0.8"
tempfile = "3"
tokio = { version = "1", features = ["rt-multi-thread", "macros"] }
dialoguer = "0.11"
