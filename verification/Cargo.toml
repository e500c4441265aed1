[package]
name = "tukai"
version = "0.1.0"
edition = "2021"
publish = false

[dependencies]
crossterm = "*"
ratatui = "*"
tokio = { version = "1", features = ["macros", "rt-multi-thread", "sync", "time"] }
