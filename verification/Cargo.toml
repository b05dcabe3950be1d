[package]
name = "horae"
version = "0.1.0"
edition = "2021"
publish = false

[dependencies]
ratatui = "0.30"
crossterm = "0.29"
tui-input = "*"
rusqlite = { version = "*", features = ["bundled"] }
chrono = "0.4"
uuid = { version = "1", features = ["v4"] }
color-eyre = "0.6"
