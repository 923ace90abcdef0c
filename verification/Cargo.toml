[package]
name = "capture_rename"
version = "0.1.0"
edition = "2021"
publish = false

[dependencies]
chrono = "0.4"
rexiv2 = "*"
tokio = { version = "1", features = ["rt-multi-thread", "macros"] }
