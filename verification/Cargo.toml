[package]
name = "aleo_utils"
version = "0.1.0"
edition = "2021"
publish = false

[dependencies]
anyhow = "1"
num_cpus = "1"
rand = "0.8"
reqwest = { version = "0.12", features = ["json"] }
serde_json = "1"
snarkvm = "*"
snarkvm-ledger-puzzle-epoch = "*"
