[package]
name = "drand_bls"
version = "0.1.0"
edition = "2021"
publish = false

[dependencies]
drand-verify = "0.3"
paired = "*"
fff = "*"
groupy = "*"
cosmwasm-std = "1.5"
serde = { version = "1", features = ["derive"] }
schemars = "0.8"

[dev-dependencies]
hex = "0.4"
