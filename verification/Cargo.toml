[package]
name = "prediction"
version = "0.1.0"
edition = "2021"
publish = false

[dependencies]
anchor-lang = { version = "=0.30.1", features = ["init-if-needed"] }
anchor-spl = "=0.30.1"
bytemuck = { version = "=1.25.2", features = ["extern_crate_alloc"] }
pyth-sdk-solana = "=0.10.6"
