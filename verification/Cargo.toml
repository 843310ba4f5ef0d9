[package]
name = "canvas_core"
version = "0.1.0"
edition = "2021"
publish = false

[dependencies]
url = "2"
time = { version = "0.3", features = ["parsing", "formatting"] }
serde = { version = "1", features = ["derive"] }
serde_json = "1"
toml = "0.8"
dirs = "5"
reqwest = { version = "0.12", default-features = false, features = ["blocking", "json", "multipart"] }
clap = { version = "4", features = ["derive"] }
csv = "1"
thiserror = "1"
tracing = "0.1"
tracing-subscriber = "0.3"
