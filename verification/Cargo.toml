[package]
name = "ibc_controller"
version = "1.0.0"
edition = "2021"
publish = false

[dependencies]
cosmwasm-std = { version = "=1.5.11", features = ["stargate"] }
cw2 = "=1.1.2"
serde = { version = "1", features = ["derive"] }
schemars = "0.8"
