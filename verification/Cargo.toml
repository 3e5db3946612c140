[package]
name = "upgrade-program"
version = "0.1.0"
edition = "2021"
publish = false

[dependencies]
solana-program = "1.18"
borsh = "0.10"
bs58 = "0.4"
thiserror = "1"
num-derive = "0.4"
num-traits = "0.2"

[dev-dependencies]
libsecp256k1 = "0.6"
