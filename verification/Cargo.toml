[package]
name = "telemetry_bridge"
version = "0.1.0"
edition = "2021"
publish = false

[dependencies]
mavlink = "0.14"
serde_json = "1"
serialport = "4"
