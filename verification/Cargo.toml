[package]
name = "pet_market"
version = "0.1.0"
edition = "2021"
publish = false

[dependencies]
secret-cosmwasm-std = "0.10"
secret-cosmwasm-storage = "0.10"
secret-toolkit = "0.2"
schemars = "0.7"
serde = { version = "1", features = ["derive"] }
