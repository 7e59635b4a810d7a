[package]
name = "k_indexer"
version = "0.1.0"
edition = "2021"
publish = false

[dependencies]
anyhow = "=1.0.104"
async-trait = "=0.1.92"
base64 = "=0.22.1"
clap = { version = "=4.6.7", features = ["derive"] }
hex = "=0.4.3"
once_cell = "=1.21.4"
polodb_core = "=5.3.0"
regex = "=1.13.1"
secp256k1 = "=0.29.1"
serde = { version = "=1.0.229", features = ["derive"] }
serde_json = "=1.0.154"
sqlx = { version = "=0.8.6", default-features = false, features = ["runtime-tokio", "postgres", "json"] }
tokio = { version = "=1.54.1", features = ["full"] }
toml = "=0.8.23"
tracing = "=0.1.44"
tracing-subscriber = { version = "=0.3.23", features = ["env-filter"] }
