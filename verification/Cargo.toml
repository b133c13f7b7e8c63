[package]
name = "bsky_tui"
version = "0.1.0"
edition = "2021"
publish = false

[dependencies]
atrium-api = "*"
atrium-xrpc-client = "*"
bsky-sdk = "*"
chrono = "*"
crossterm = "*"
dirs = "*"
eyre = "*"
ratatui = "*"
seahorse = "*"
serde = { version = "*", features = ["derive"] }
tokio = { version = "*", features = ["sync", "rt-multi-thread", "macros", "time"] }
toml = "*"
tui-input = "*"
webbrowser = "*"
