[package]
name = "zkevm_circuits"
version = "0.1.0"
edition = "2021"
publish = false

[dependencies]
ethers-core = "*"
serde = { version = "*", features = ["derive"] }
serde_json = "*"
