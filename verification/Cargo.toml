[package]
name = "beacon_pulse"
version = "0.1.0"
edition = "2021"
publish = false

[dependencies]
base64 = "=0.22.1"
rand = "=0.8.8"
ring = "=0.17.14"
uuid = { version = "=1.29.0", features = ["v4"] }
tracing = "=0.1.44"
anyhow = "=1.0.104"
serde = { version = "=1.0.229", features = ["derive"] }
openh264 = "=0.9.9"
serde_json = "1"
