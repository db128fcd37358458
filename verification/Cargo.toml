[package]
name = "axum_protobuf"
version = "0.1.0"
edition = "2021"
publish = false

[dependencies]
prost = "*"
serde = "*"
serde_json = "*"
axum = "*"
futures-util = "*"
