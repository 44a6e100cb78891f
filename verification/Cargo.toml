[package]
name = "agent_core"
version = "0.1.0"
edition = "2021"
publish = false

[dependencies]
async-channel = "*"
chrono = { version = "*", features = ["serde"] }
codex-protocol = "0.63.0"
serde = { version = "*", features = ["derive"] }
serde_json = "*"
thiserror = "*"
tokio = { version = "*", features = ["macros", "rt", "rt-multi-thread", "sync", "time"] }
tracing = "*"
uuid = { version = "*", features = ["v4", "serde"] }
