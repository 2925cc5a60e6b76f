[package]
name = "small_network"
version = "0.1.0"
edition = "2021"
publish = false

[dependencies]
openssl = "*"
tokio = { version = "*", features = ["full"] }
tokio-openssl = "*"
tokio-util = { version = "*", features = ["compat"] }
futures = "*"
bytes = "*"
tracing = "*"
prometheus = "*"
