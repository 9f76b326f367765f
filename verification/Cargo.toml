[package]
name = "serial_tool"
version = "0.1.0"
edition = "2021"
publish = false

[dependencies]
tokio = { version = "1", features = ["rt-multi-thread", "macros", "sync", "io-util", "time"] }
tokio-serial = { version = "5.4", default-features = false }
eframe = { version = "0.29", default-features = false, features = ["glow", "default_fonts", "x11"] }
