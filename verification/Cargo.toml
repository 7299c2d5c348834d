[package]
name = "control_plane"
version = "0.1.0"
edition = "2021"
publish = false

[dependencies]
hyper = { version = "0.14", features = ["client", "http1", "tcp", "runtime"] }

[dev-dependencies]
tokio = { version = "1", features = ["rt", "net", "io-util", "time"] }
