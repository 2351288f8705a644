[package]
name = "loopback_capture"
version = "0.1.0"
edition = "2021"
publish = false

[dependencies]
base64 = "0.22"
tokio = { version = "1", features = ["rt-multi-thread", "macros", "sync", "time"] }

[dev-dependencies]
hound = "3.5"
