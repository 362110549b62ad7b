[package]
name = "ssh_core"
version = "0.1.0"
edition = "2021"
publish = false

[dependencies]
chrono = "*"
russh = "*"
tokio = { version = "*", features = ["rt-multi-thread", "sync", "macros", "time"] }
serde = { version = "*", features = ["derive"] }
