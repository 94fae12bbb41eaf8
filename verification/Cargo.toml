[package]
name = "sns_records"
version = "0.1.0"
edition = "2021"
publish = false

[dependencies]
solana-program = "=1.18.26"
spl-name-service = "=0.3.1"
hex = "=0.4.3"
borsh = "=1.8.1"

[dev-dependencies]
libsecp256k1 = "=0.7.2"
