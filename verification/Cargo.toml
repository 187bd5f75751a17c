[package]
name = "quiz_lobby"
version = "0.1.0"
edition = "2021"
publish = false

[dependencies]
slab = "*"
serde = { version = "*", features = ["derive"] }
serde_json = "*"
tokio = { version = "*", features = ["rt-multi-thread", "macros", "sync", "time"] }
parking_lot = "*"
hyper = { version = "0.14", features = ["client", "http1", "http2", "tcp"] }
hyper-tls = "0.5"
