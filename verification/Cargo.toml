[package]
name = "spotify_tui"
version = "0.1.0"
edition = "2021"
publish = false

[dependencies]
num-traits = "*"
rspotify = { version = "*", default-features = false, features = ["client-reqwest", "reqwest-rustls-tls", "cli"] }
tokio = { version = "*", features = ["rt-multi-thread", "macros", "sync"] }
ratatui = "*"
crossterm = "*"
color-eyre = "*"
serde = { version = "*", features = ["derive"] }
toml = "*"
