[package]
name = "incoming"
version = "0.1.0"
edition = "2021"
publish = false

[dependencies]
futures-util = "0.3"
tokio = { version = "1", features = ["fs", "io-util", "net", "rt"] }
