[package]
name = "file_transcription"
version = "0.1.0"
edition = "2021"
publish = false

[dependencies]
url = "2"
symphonia = { version = "0.5", features = ["all"] }
reqwest = { version = "0.12", default-features = false, features = ["json"] }
tokio = { version = "1", features = ["sync", "rt", "macros"] }
serde = { version = "1", features = ["derive"] }
serde_json = "1"
anyhow = "1"
log = "0.4"
async-trait = "0.1"
