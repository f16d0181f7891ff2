[package]
name = "linear_tui"
version = "0.1.0"
edition = "2021"
publish = false

[dependencies]
chrono = "*"
ratatui = "*"
crossterm = "*"
tokio = { version = "*", features = ["rt-multi-thread", "macros", "time", "sync"] }
tokio-stream = "*"
reqwest = { version = "*", default-features = false, features = ["json"] }
serde = { version = "*", features = ["derive"] }
serde_json = "*"
cli-clipboard = "*"
open = "*"
tui-markdown = "*"
