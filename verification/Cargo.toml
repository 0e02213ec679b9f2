[package]
name = "stitch"
version = "0.1.0"
edition = "2021"
publish = false

[dependencies]
chrono = "*"
hyper = { version = "*", features = ["client", "http1"] }
hyper-tls = "*"
hyper-util = { version = "*", features = ["client", "client-legacy", "http1", "tokio"] }
http-body-util = "*"
tokio = { version = "*", features = ["rt", "macros", "sync", "time"] }
log = "*"
serde = "*"
serde_derive = "*"
serde_json = "*"
