[package]
name = "call_boundary"
version = "0.1.0"
edition = "2021"
publish = false

[dependencies]
anyhow = "1"
napi = "1"
serde = "1"
serde_json = "1"
