[package]
name = "credential_hasher"
version = "0.1.0"
edition = "2021"
publish = false

[dependencies]
bcrypt = "0.10"
hmac = "0.7"
sha2 = "0.8"
