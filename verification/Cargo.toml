[package]
name = "tui_core"
version = "0.1.0"
edition = "2021"
publish = false

[dependencies]
color-eyre = "*"
crossterm = { version = "*", features = ["event-stream"] }
futures = "*"
ratatui = "*"
signal-hook = "*"
tokio = { version = "*", features = ["rt", "sync", "time", "macros"] }
tokio-util = "*"
tracing = "*"
