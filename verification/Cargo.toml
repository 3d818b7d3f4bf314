[package]
name = "boxscores"
version = "0.1.0"
edition = "2021"
publish = false

[dependencies]
axum = "=0.8.9"
rig-core = "=0.29.0"
serde = { version = "=1.0.229", features = ["derive"] }
serde_json = "=1.0.151"
thiserror = "=2.0.21"
tokio = { version = "=1.53.2", features = ["macros", "rt-multi-thread", "net", "time"] }
tokio-postgres = "=0.7.18"
