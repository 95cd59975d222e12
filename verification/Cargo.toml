[package]
name = "mev_share"
version = "0.1.0"
edition = "2021"
publish = false

[dependencies]
ethers = { version = "*", default-features = false }
serde = { version = "*", features = ["derive"] }
url = "*"
