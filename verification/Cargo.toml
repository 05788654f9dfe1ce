[package]
name = "tiger_delta"
version = "0.1.0"
edition = "2021"
publish = false

[dependencies]
getrandom = "0.2"
tokio = { version = "1", features = ["rt-multi-thread", "net", "sync", "macros"] }
