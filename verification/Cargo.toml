[package]
name = "strand"
version = "0.1.0"
edition = "2021"
publish = false

[dependencies]
anyhow = "1"
serde = { version = "1", features = ["derive"] }
serde_json = "1"
toml = "0.8"
chrono = "0.4"
tokio = { version = "1", features = ["full"] }
futures = "0.3"
libc = "0.2"
crossterm = { version = "0.28", features = ["event-stream"] }
ratatui = "0.29"
ansi-to-tui = "7"
tui-markdown = "0.3"
