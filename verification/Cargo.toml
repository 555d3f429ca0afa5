[package]
name = "packets"
version = "0.1.0"
edition = "2021"
publish = false

[dependencies]
moka = { version = "*", features = ["sync"] }
serde = { version = "*", features = ["derive"] }
