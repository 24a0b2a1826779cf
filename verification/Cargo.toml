[package]
name = "codex_history_store"
version = "0.1.0"
edition = "2021"
publish = false

[dependencies]
anyhow = "1"
chrono = { version = "0.4", default-features = false, features = ["clock", "std"] }
clap = { version = "4", features = ["derive", "env"] }
serde = { version = "1", features = ["derive"] }
serde_json = "1"
sqlx = { version = "*", default-features = false, features = ["any", "sqlite", "postgres", "runtime-tokio"] }
tokio = { version = "1", features = ["fs", "rt-multi-thread", "macros"] }
