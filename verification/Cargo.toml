[package]
name = "udx"
version = "0.1.0"
edition = "2021"
publish = false

[dependencies]
if-addrs = "*"
thiserror = "*"
tokio = { version = "1", features = ["sync", "time", "rt", "macros"] }
