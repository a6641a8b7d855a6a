[package]
name = "blinko_voice"
version = "0.1.0"
edition = "2021"
publish = false

[dependencies]
auto-launch = "0.5"
cpal = { version = "0.15", default-features = false }
crossbeam-channel = "=0.5.17"
enigo = { version = "0.2", default-features = false }
parking_lot = "=0.12.5"
rdev = { version = "0.5", default-features = false }
serde = { version = "=1.0.229", features = ["derive"] }
serde_json = "=1.0.154"
sys-locale = "=0.3.2"
