[package]
name = "nodo_tui"
version = "0.1.0"
edition = "2021"
publish = false

[dependencies]
crossterm = "0.27"
prost = "0.12"
ratatui = "0.26"
regex = "1"
rusqlite = "0.31"
sysinfo = "0.30"
tokio = { version = "1", features = ["io-util", "process", "rt"] }
