[package]
name = "worth_core"
version = "0.1.0"
edition = "2021"
publish = false

[dependencies]
anyhow = "=1.0.104"
chrono = { version = "=0.4.45", features = ["serde"] }
clap = { version = "=4.6.7", features = ["derive"] }
serde = { version = "=1.0.229", features = ["derive"] }
serde_json = "=1.0.151"
sqlx = { version = "=0.9.0", features = ["sqlite", "runtime-tokio", "chrono"] }
thiserror = "=2.0.21"
tokio = { version = "=1.53.2", default-features = false, features = ["rt-multi-thread", "macros"] }
