[package]
name = "lobby_core"
version = "0.1.0"
edition = "2021"
publish = false

[dependencies]
uuid = { version = "*", features = ["v4"] }
serde = { version = "*", features = ["derive"] }
serde_json = "*"
anyhow = "*"
async-trait = "*"
futures = "*"
futures-util = "*"
futures-channel = "*"
parking_lot = "*"
rand = "*"
tokio = { version = "*", features = ["full"] }
rsocket_rust = "*"
rsocket_rust_transport_websocket = "*"
