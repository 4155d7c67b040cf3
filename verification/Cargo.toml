[package]
name = "rippy"
version = "0.1.0"
edition = "2021"
publish = false

[dependencies]
chrono = "0.4"
clap = { version = "4", features = ["derive"] }
crossterm = "0.28"
daemonize = "0.5"
dirs = "5"
fuzzy-matcher = "0.3"
hex = "0.4"
libc = "0.2"
ratatui = "0.29"
rusqlite = { version = "0.32", features = ["bundled"] }
serde = { version = "1", features = ["derive"] }
sha2 = "0.10"
signal-hook = "0.3"
toml = "0.8"
