[package]
name = "udco2s"
version = "0.1.0"
edition = "2021"
publish = false

[dependencies]
clap = { version = "4", features = ["derive"] }
regex = "1"
serialport = { version = "4", default-features = false }
