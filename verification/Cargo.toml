[package]
name = "xeddsa"
version = "0.1.0"
edition = "2021"
publish = false

[dependencies]
curve25519-dalek = "4"
sha2 = "0.10"
x25519-dalek = { version = "2", features = ["static_secrets", "getrandom"] }
napi = "2"
napi-derive = "2"
