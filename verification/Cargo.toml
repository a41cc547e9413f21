[package]
name = "rust_zmq_chat"
version = "0.1.0"
edition = "2021"
publish = false

[dependencies]
chrono = "0.4"
uuid = { version = "1", features = ["v4"] }
serde = { version = "1", features = ["derive"] }
serde_json = "1"
tokio = { version = "1", features = ["sync", "rt-multi-thread", "macros"] }
zmq = "0.10"
eframe = { version = "0.31", default-features = false, features = ["default_fonts", "glow", "x11"] }
tracing-subscriber = "0.3"
