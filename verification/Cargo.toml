[package]
name = "intel_cryo_tec_monitor"
version = "0.1.0"
edition = "2021"
publish = false

[dependencies]
serialport = { version = "=4.10.1", default-features = false }
serde_json = "=1.0.151"
