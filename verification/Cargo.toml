[package]
name = "price_oracle"
version = "0.1.0"
edition = "2021"
publish = false

[dependencies]
bip39 = "*"
cosmrs = { version = "*", features = ["cosmwasm"] }
serde = { version = "*", features = ["derive"] }
serde_json = "*"
reqwest = { version = "*", default-features = false, features = ["json"] }
tokio = { version = "*", features = ["macros", "rt-multi-thread"] }
dotenv = "*"
base64 = "*"

[dev-dependencies]
k256 = { version = "*", features = ["ecdsa"] }
