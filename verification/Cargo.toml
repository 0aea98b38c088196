[package]
name = "canvas"
version = "0.1.0"
edition = "2021"
publish = false

[dependencies]
cssparser = { version = "=0.27.2", features = ["serde"] }
euclid = { version = "=0.22.14", features = ["serde"] }
ferrite-session = "=0.3.0"
ipc-channel = "=0.23.1"
lazy_static = "=1.5.1"
serde = { version = "=1.0.229", features = ["derive"] }
serde_bytes = "=0.11.19"
tokio = { version = "=1.54.1", features = ["rt", "rt-multi-thread", "time"] }
webrender_api = "=0.70.0"
