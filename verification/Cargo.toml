[package]
name = "turborepo_discovery"
version = "0.1.0"
edition = "2021"
publish = false

[dependencies]
serde = { version = "1", features = ["derive"] }
thiserror = "1"
tokio = { version = "1", features = ["fs", "rt", "rt-multi-thread", "time"] }
tokio-stream = "0.1"
