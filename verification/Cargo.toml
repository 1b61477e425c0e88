[package]
name = "multichat"
version = "0.1.0"
edition = "2021"
publish = false

[dependencies]
argh = "*"
socket2 = "*"
tokio = { version = "*", features = ["rt", "net", "sync", "macros", "time"] }
