[package]
name = "process_triggers"
version = "0.1.0"
edition = "2021"
publish = false

[dependencies]
bincode = "1"
chrono = "0.4"
paho-mqtt = "0.13"
serde = { version = "1", features = ["derive"] }
sysinfo = "0.33"
