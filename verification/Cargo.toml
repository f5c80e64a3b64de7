[package]
name = "taidan"
version = "0.1.0"
edition = "2021"
publish = false

[dependencies]
tokio = { version = "1", features = ["process", "fs", "rt-multi-thread", "macros", "io-std", "io-util"] }
color-eyre = "0.6"
uzers = "0.12"
