[package]
name = "wallet_core"
version = "0.1.0"
edition = "2021"
publish = false

[dependencies]
sss-rs = "*"
secp256k1 = "*"
rand = "*"
ethers = { version = "2", default-features = false }
serde = { version = "*", features = ["derive"] }
serde_json = "*"
axum = "*"
tokio = { version = "*", features = ["macros", "rt-multi-thread", "net"] }
bcrypt = "*"
wcookie = "*"
async-trait = "*"
eyre = "*"
thiserror = "*"

[dev-dependencies]
hex = "*"
