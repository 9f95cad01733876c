[package]
name = "rstherac25"
version = "0.1.0"
edition = "2021"
publish = false

[dependencies]
rand = "0.8"
chrono = "0.4"
parking_lot = "0.12"
tokio = { version = "1", features = ["rt-multi-thread", "macros", "time"] }
