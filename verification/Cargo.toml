[package]
name = "agentd"
version = "0.1.0"
edition = "2021"
publish = false

[dependencies]
uuid = { version = "1", features = ["v7"] }
chrono = "0.4"
serde = { version = "1", features = ["derive"] }
serde_json = "1"
toml = "0.8"
thiserror = "2"
clap = { version = "4", features = ["derive", "env"] }
tokio = { version = "1", features = ["full"] }
ratatui = "0.29"
crossterm = "0.28"
rusqlite = { version = "0.32", features = ["bundled"] }
parking_lot = "0.12"
anyhow = "1"
async-trait = "0.1"
ctrlc = "3"
futures = "0.3"
libc = "0.2"
nix = { version = "0.29", features = ["fs", "socket", "user"] }
tracing = "0.1"
tracing-subscriber = { version = "0.3", features = ["env-filter"] }
