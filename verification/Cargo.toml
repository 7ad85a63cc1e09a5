[package]
name = "zweidraehte-device"
version = "0.1.0"
edition = "2021"
publish = false

[dependencies]
async-hid = "=0.5.3"
futures-lite = "=2.6.1"
heapless = "0.8"
