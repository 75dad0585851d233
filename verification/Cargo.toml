[package]
name = "frame_stream"
version = "0.1.0"
edition = "2021"
publish = false

[dependencies]
serde_json = "1"
serde = { version = "1", features = ["derive"] }
tokio = { version = "1", features = ["net", "fs", "io-util", "time", "sync", "macros", "rt-multi-thread"] }
tokio-util = { version = "0.7", features = ["codec", "net"] }
futures-util = "0.3"
