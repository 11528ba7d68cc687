[package]
name = "openpit_ffi"
version = "0.1.0"
edition = "2021"
publish = false

[dependencies]
openpit = { version = "=0.11.0", features = ["serde"] }
rust_decimal = "=1.43.0"
rmp-serde = "=1.3.1"
serde_json = "=1.0.154"
ciborium = "=0.2.2"
