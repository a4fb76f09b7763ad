[package]
name = "vibingide"
version = "0.1.0"
edition = "2021"
publish = false

[dependencies]
vt100 = "0.15"
ulid = "1"
chrono = { version = "0.4", default-features = false, features = ["now"] }
anyhow = "1"
serde = { version = "1", features = ["derive"] }
serde_json = "1"
toml = "0.8"
dirs = "5"
tokio = { version = "1", features = ["rt-multi-thread", "sync", "time"] }
portable-pty = "0.8"
egui = { version = "0.27", default-features = false, features = ["default_fonts"] }
tracing = "0.1"
tracing-appender = "0.2"
tracing-subscriber = { version = "0.3", features = ["env-filter"] }
ratatui = { version = "0.26", default-features = false }
