[package]
name = "am_radio_core"
version = "0.1.0"
edition = "2021"
publish = false

[dependencies]
tokio = { version = "1", features = ["sync", "net", "time", "rt-multi-thread", "macros", "io-util"] }
