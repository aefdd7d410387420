[package]
name = "log_follow"
version = "0.1.0"
edition = "2021"
publish = false

[dependencies]
chrono = "0.4"
comfy-table = "7"
crossterm = "*"
pueue-lib = "*"
serde = { version = "1", features = ["derive"] }
serde_json = "1"
snap = "1"
tokio = { version = "1", features = ["macros", "rt-multi-thread", "time"] }
