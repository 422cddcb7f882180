[package]
name = "bank_of_zion"
version = "0.1.0"
edition = "2021"
publish = false

[dependencies]
solana-program = "=1.14.29"
spl-token = { version = "=3.5.0", features = ["no-entrypoint"] }
spl-math = { version = "=0.1.0", features = ["no-entrypoint"] }
pyth-sdk-solana = "=0.7.2"
thiserror = "=1.0.69"
num-derive = "=0.3.3"
num-traits = "=0.2.19"
bytemuck = "=1.25.2"
