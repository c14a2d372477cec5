[package]
name = "russh_agent"
version = "0.1.0"
edition = "2021"
publish = false

[dependencies]
bytes = "1"
getset = "*"
slog = "2"
slog-try = "*"
tokio = { version = "1", features = ["io-util", "macros", "rt", "sync"] }
