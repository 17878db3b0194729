[package]
name = "wallet_core"
version = "0.1.0"
edition = "2021"
publish = false

[dependencies]
alloy-primitives = { version = "0.7", default-features = false }
base58 = "0.2"
candid = "0.10"
dotenvy = "0.15"
evm-rpc-canister-types = "0.1"
geohash = "0.13"
ic-cdk = "0.13"
ic-ethereum-types = "1.0"
ic-secp256k1 = "*"
k256 = "0.13"
serde = { version = "1", features = ["derive"] }
serde_bytes = "0.11"
serde_json = "1"
sha2 = "0.10"
