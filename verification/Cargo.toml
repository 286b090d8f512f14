[package]
name = "tray_bridge"
version = "0.1.0"
edition = "2021"
publish = false

[dependencies]
tokio = { version = "1", features = ["rt"] }
tracing = "0.1"
tray-item = { version = "0.10", features = ["ksni"] }
