[package]
name = "ethernet_frame"
version = "0.1.0"
edition = "2021"
publish = false

[dependencies]
pnet = "*"
serde = { version = "1", features = ["derive"] }
serde_derive = "1"
