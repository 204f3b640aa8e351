[package]
name = "wire_policy"
version = "0.1.0"
edition = "2021"
publish = false

[dependencies]
rmp = "0.8"
serde = "1"
