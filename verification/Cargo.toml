[package]
name = "secure_store"
version = "0.1.0"
edition = "2021"
publish = false

[dependencies]
keyring = { version = "=4.2.0", default-features = false, features = ["cli"] }
keyring-core = "=1.0.1"
log = "0.4"
serde = { version = "1", features = ["derive"] }
