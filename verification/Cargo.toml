[package]
name = "rdkafka"
version = "0.12.0"
edition = "2021"
publish = false

[dependencies]
log = "0.4"
rdkafka-sys = { version = "*", default-features = false }
serde = { version = "1", features = ["derive"] }
serde_json = "1"
