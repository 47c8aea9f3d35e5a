[package]
name = "payment_core"
version = "0.1.0"
edition = "2021"
publish = false

[dependencies]
async-trait = "0.1"
base64 = "0.22"
error-stack = "0.4"
futures = "0.3"
hex = "0.4"
rand = "0.8"
rustc-hash = "1.1"
serde = { version = "1", features = ["derive"] }
serde_json = "1"
serde_urlencoded = "0.7"
sha2 = "0.10"
time = "0.3"
