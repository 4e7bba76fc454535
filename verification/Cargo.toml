[package]
name = "counting_contract"
version = "0.1.0"
edition = "2021"
publish = false

[dependencies]
cosmwasm-std = "*"
cosmwasm-schema = "*"
schemars = "*"
serde = { version = "*", features = ["derive"] }
