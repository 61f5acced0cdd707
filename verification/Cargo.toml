[package]
name = "nemo_management"
version = "0.1.0"
edition = "2021"
publish = false

[dependencies]
anyhow = "1"
base64 = "0.22"
log = "0.4"
serde = "1"
serde_derive = "1"
serde_json = { version = "1", features = ["preserve_order"] }
sodiumoxide = "0.2"
