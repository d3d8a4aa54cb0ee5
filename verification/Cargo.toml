[package]
name = "vtt_core"
version = "0.1.0"
edition = "2021"
publish = false

[dependencies]
anyhow = "1"
chrono = { version = "0.4", features = ["serde"] }
clap = { version = "4", features = ["derive"] }
cpal = "*"
dirs = "*"
hound = "3"
log = "0.4"
num_cpus = "1"
pipewire = "*"
reqwest = { version = "0.12", default-features = false, features = ["rustls-tls"] }
rmcp = { version = "*", features = ["server", "transport-io"] }
schemars = "*"
serde = { version = "1", features = ["derive"] }
sha2 = "0.10"
thiserror = "*"
tokio = { version = "1", features = ["full"] }
toml = "*"
tracing = "0.1"
tracing-subscriber = { version = "0.3", features = ["env-filter"] }
uuid = { version = "1", features = ["v4", "serde"] }
whisper-rs = "*"
