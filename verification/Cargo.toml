[package]
name = "rynamo"
version = "0.1.0"
edition = "2021"
publish = false

[dependencies]
anyhow = "1"
azure_core = "*"
azure_identity = "*"
chrono = "0.4"
clap = { version = "4", features = ["derive", "env"] }
crossterm = "*"
dirs = "*"
ratatui = "*"
reqwest = { version = "0.12", features = ["json"] }
serde = { version = "1", features = ["derive"] }
serde_json = "1"
tokio = { version = "1", features = ["full"] }
toml = "*"
tracing-subscriber = { version = "0.3", features = ["env-filter"] }
urlencoding = "2"
