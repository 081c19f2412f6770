[package]
name = "gor_keyless_backend"
version = "0.1.0"
edition = "2021"
publish = false

[dependencies]
base64 = "0.22"
bs58 = "0.5"
candid = "0.10"
hex = "0.4"
ic-cdk = "0.17"
ic-stable-structures = "0.6"
serde = { version = "1", features = ["derive"] }
serde_json = "1"
