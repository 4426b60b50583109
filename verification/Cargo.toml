[package]
name = "buttplug"
version = "0.1.0"
edition = "2021"
publish = false

[dependencies]
async-std = "*"
serde = { version = "*", features = ["derive"] }
