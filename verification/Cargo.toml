[package]
name = "signald_tui"
version = "0.1.0"
edition = "2021"
publish = false

[dependencies]
bus = "2"
chrono = "0.4"
crossterm = "0.25"
serde_json = "1"
tokio = { version = "1", features = ["macros", "rt-multi-thread", "sync", "time"] }
tui = "0.19"
