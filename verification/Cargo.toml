[package]
name = "sdk_rust"
version = "0.1.0"
edition = "2021"
publish = false

[dependencies]
prost = "*"
tungstenite = "*"
parking_lot = "*"
thiserror = "*"
futures = "*"
async-tungstenite = { version = "*", features = ["tokio-runtime"] }
tokio = { version = "*", features = ["rt", "net"] }
