[package]
name = "lightning-liquidity"
version = "0.1.0"
edition = "2021"
publish = false

[dependencies]
bitcoin = "0.30.2"
lightning = "=0.0.122"
serde = "1"
serde_json = "1"
