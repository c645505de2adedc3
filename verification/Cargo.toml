[package]
name = "viz2"
version = "0.1.0"
edition = "2021"
publish = false

[dependencies]
fluvio = "*"
futures-util = "0.3"
mime_guess = "2"
poem = { version = "*", features = ["websocket", "static-files"] }
tokio = { version = "1", features = ["full"] }
tracing = "0.1"
