[package]
name = "probe_client"
version = "0.1.0"
edition = "2021"
publish = false

[dependencies]
anyhow = "*"
clap = "*"
env_logger = "*"
gethostname = "*"
log = "*"
reqwest = { version = "*", default-features = false, features = ["json"] }
serde = { version = "*", features = ["derive"] }
serde_json = "*"
systemstat = "*"
tokio = { version = "*", features = ["rt", "macros", "time", "sync", "signal", "fs", "io-util"] }
toml = "*"
uuid = { version = "*", features = ["v4"] }
