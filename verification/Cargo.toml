[package]
name = "qubic_wire"
version = "0.1.0"
edition = "2021"
publish = false

[dependencies]
anyhow = "*"
axum = "*"
base64 = "*"
bincode = "1"
chrono = "*"
num-bigint = "*"
serde = { version = "*", features = ["derive"] }
sled = "*"
