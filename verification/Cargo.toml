[package]
name = "hn_rs"
version = "0.1.0"
edition = "2021"
publish = false

[dependencies]
chrono = "*"
html2text = "*"
html-escape = "*"
firebase-rs = "*"
tokio = { version = "*", features = ["full"] }
futures = "*"
crossbeam-channel = "*"
ratatui = "*"
crossterm = "*"
serde = { version = "*", features = ["derive"] }
serde_json = "*"
directories = "*"
open = "*"
once_cell = "*"
