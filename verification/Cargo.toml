[package]
name = "capi_core"
version = "0.1.0"
edition = "2021"
publish = false

[dependencies]
algonaut = "0.9"
rust_decimal = "1"
sha2 = "0.10"
data-encoding = "2"
rmp-serde = "1"
serde = { version = "1", features = ["derive"] }
anyhow = "1"
futures = "0.3"
log = "0.4"
