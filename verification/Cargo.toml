[package]
name = "remote_session"
version = "0.1.0"
edition = "2021"
publish = false

[dependencies]
autopilot = "0.4"
tracing = "0.1"
websocket = { version = "0.26", default-features = false, features = ["sync"] }
