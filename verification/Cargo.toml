[package]
name = "fhe_aes128"
version = "0.1.0"
edition = "2021"
publish = false

[dependencies]
tfhe = { version = "=0.11.3", features = ["boolean", "shortint", "integer"] }
rayon = "=1.12.0"
aes = "=0.9.3"
clap = { version = "=4.6.7", features = ["derive"] }
