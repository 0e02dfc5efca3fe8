[package]
name = "spaze"
version = "0.1.0"
edition = "2021"
publish = false

[dependencies]
uuid = { version = "1", features = ["v5", "v7", "serde"] }
chrono = "0.4"
unicode-width = "0.2"
serde = { version = "1", features = ["derive"] }
serde_json = "1"
thiserror = "2"
anyhow = "1"
clap = { version = "4", features = ["derive"] }
tokio = { version = "1", features = ["macros", "rt-multi-thread", "net", "signal", "sync", "time"] }
tokio-tungstenite = "0.24"
futures-util = { version = "0.3", features = ["sink"] }
crossterm = { version = "0.28", features = ["event-stream"] }
ratatui = "0.29"
tracing = "0.1"
tracing-subscriber = { version = "0.3", features = ["env-filter"] }
