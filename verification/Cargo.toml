[package]
name = "tokio-par-util"
version = "0.1.0"
edition = "2021"
publish = false

[dependencies]
futures-util = "0.3"
pin-project = "1"
tokio = { version = "1", features = ["rt", "sync"] }
tokio-util = { version = "0.7", features = ["rt"] }
