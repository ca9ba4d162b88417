[package]
name = "tonepoet_tui"
version = "0.1.0"
edition = "2021"
publish = false

[dependencies]
ratatui = "0.26"
crossterm = "0.27"
humansize = "2"
chrono = "0.4"
tokio = { version = "1", features = ["sync", "rt"] }
