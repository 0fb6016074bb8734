[package]
name = "pelican_installer"
version = "0.1.0"
edition = "2021"
publish = false

[dependencies]
anyhow = "1"
chrono = "0.4"
crossterm = "*"
env_logger = "*"
log = "0.4"
nix = { version = "*", features = ["user"] }
ratatui = "*"
serde = { version = "1", features = ["derive"] }
thiserror = "*"
tokio = { version = "1", features = ["rt-multi-thread", "macros", "sync", "time", "process", "io-util"] }
unicode-width = "*"
