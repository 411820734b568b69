[package]
name = "packet"
version = "0.1.0"
edition = "2021"
publish = false

[dependencies]
anyhow = "=1.0.104"
async-channel = "=2.5.0"
tokio = { version = "=1.53.2", features = ["rt-multi-thread", "sync", "time", "macros"] }
tokio-util = "=0.7.19"
