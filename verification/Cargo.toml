[package]
name = "cube_scanner"
version = "0.1.0"
edition = "2021"
publish = false

[dependencies]
btleplug = "0.11"
tokio = { version = "1", features = ["rt-multi-thread", "macros", "time"] }
