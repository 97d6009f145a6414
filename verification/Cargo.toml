[package]
name = "fhe_ballot"
version = "0.1.0"
edition = "2021"
publish = false

[dependencies]
serde_json = "*"
tfhe = { version = "=0.6.4", default-features = false, features = ["integer", "x86_64-unix"] }
