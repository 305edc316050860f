[package]
name = "gas_fee_middleware"
version = "0.1.0"
edition = "2021"
publish = false

[dependencies]
ethers-core = "*"
serde = { version = "*", features = ["derive"] }
async-trait = "*"
thiserror = "*"
