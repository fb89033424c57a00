[package]
name = "dynrpc"
version = "0.1.0"
edition = "2021"
publish = false

[dependencies]
prost = "0.13"
prost-reflect = { version = "0.14", features = ["serde"] }
serde = { version = "1", features = ["derive"] }
serde_json = "1"
tonic = "0.12"
tokio = { version = "1", features = ["rt-multi-thread", "macros"] }
uuid = { version = "1", features = ["v4"] }
chrono = "0.4"
anyhow = "1"

[dev-dependencies]
prost-types = "0.13"
