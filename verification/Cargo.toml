[package]
name = "kiroku_tui"
version = "0.1.0"
edition = "2021"
publish = false

[dependencies]
anyhow = "1"
arboard = "3"
chrono = "0.4"
crossterm = "0.28"
dirs = "5"
fuzzy-matcher = "0.3"
log = "0.4"
notify = "6"
ratatui = "0.29"
serde = { version = "1", features = ["derive"] }
serde_yaml = "0.9"
thiserror = "1"
toml = "0.8"
tui-logger = "0.14"
walkdir = "2"
