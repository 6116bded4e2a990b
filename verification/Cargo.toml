[package]
name = "geyser_fanin"
version = "0.1.0"
edition = "2021"
publish = false

[dependencies]
serde = { version = "1", features = ["derive"] }
serde_json = "1"
tokio = { version = "1", features = ["rt-multi-thread", "macros", "sync"] }
tokio-stream = "0.1"
yellowstone-grpc-client = "*"
yellowstone-grpc-proto = "*"
