[package]
name = "whip_signaller"
version = "0.1.0"
edition = "2021"
publish = false

[dependencies]
anyhow = "1"
async-std = "1"
futures = "0.3"
once_cell = "1"
reqwest = { version = "0.12", default-features = false, features = ["blocking"] }
