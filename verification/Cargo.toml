[package]
name = "rsil"
version = "0.1.0"
edition = "2021"
publish = false

[dependencies]
alloy-primitives = { version = "=1.7.3", default-features = false, features = ["std", "serde", "getrandom", "map"] }
alloy-rlp = "=0.3.17"
alloy-serde = "=1.8.3"
serde = { version = "=1.0.229", features = ["derive"] }
serde_json = "=1.0.154"
