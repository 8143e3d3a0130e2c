[package]
name = "chat"
version = "0.1.0"
edition = "2021"
publish = false

[dependencies]
serde = { version = "=1.0.229", features = ["derive"] }
bincode = "=1.3.3"
bytes = "=1.12.1"
futures = "=0.3.34"
thiserror = "=1.0.69"
parse-display = "=0.11.0"
tokio = { version = "=1.53.2", features = ["full"] }
tokio-serde = { version = "=0.9.0", features = ["bincode"] }
tokio-util = { version = "=0.7.19", features = ["codec"] }
crossterm = { version = "=0.25.0", features = ["event-stream"] }
tui = "=0.19.0"
tui-input = "=0.6.1"
