[package]
name = "bingo"
version = "0.1.0"
edition = "2021"
publish = false

[dependencies]
sha3 = "*"
cosmwasm-std = "*"
cw-storage-plus = "*"
serde = { version = "*", features = ["derive"] }
