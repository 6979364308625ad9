[package]
name = "chess_session"
version = "0.1.0"
edition = "2021"
publish = false

[dependencies]
pleco = "*"
tokio = { version = "1", features = ["rt-multi-thread", "sync", "time", "macros"] }
serde = { version = "1", features = ["derive"] }
anyhow = "1"
log = "*"
