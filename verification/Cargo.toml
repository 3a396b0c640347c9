[package]
name = "nocti"
version = "0.1.0"
edition = "2021"
publish = false

[dependencies]
anyhow = "1"
async-stream = "0.3"
prost = "0.13"
serde = { version = "1", features = ["derive"] }
serde_json = "1"
tempfile = "3"
tokio = { version = "1", features = ["full"] }
tokio-tar = "0.3"
toml = "0.8"
tonic = "0.13"
tracing = "0.1"
