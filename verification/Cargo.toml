[package]
name = "revproxy"
version = "0.1.0"
edition = "2021"
publish = false

[dependencies]
hyper = { version = "1", features = ["http1", "client", "server"] }
hyper-util = { version = "0.1", features = ["client", "client-legacy", "http1", "server", "tokio"] }
http-body-util = "0.1"
tokio = { version = "1", features = ["full"] }
