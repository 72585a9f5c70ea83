[package]
name = "metrics_serve"
version = "0.1.0"
edition = "2021"
publish = false

[dependencies]
deflate = { version = "*", features = ["gzip"] }
http = "0.2"
hyper = { version = "0.14", features = ["http1", "server"] }
futures = "0.3"
tracing = "0.1"

[dev-dependencies]
flate2 = "1"
