[package]
name = "renogy"
version = "0.1.0"
edition = "2021"
publish = false

[dependencies]
tokio = { version = "1", features = ["sync", "time", "rt"] }
tokio-modbus = { version = "0.9", default-features = false, features = ["rtu"] }
tokio-serial = { version = "5.4" }
