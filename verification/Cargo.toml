[package]
name = "arbiter"
version = "0.1.0"
edition = "2021"
publish = false

[dependencies]
bytes = "=1.12.1"
crossbeam-channel = "=0.5.17"
ethers-contract = { version = "=2.0.14", default-features = false, features = ["providers"] }
ethers-core = { version = "=2.0.14", default-features = false }
ethers-providers = { version = "=2.0.14", default-features = false }
revm = { version = "=3.3.0", default-features = false, features = ["std"] }
revm-interpreter = { version = "=1.1.2", default-features = false }
revm-precompile = { version = "=2.0.3", default-features = false }
revm-primitives = { version = "=1.1.2", default-features = false }
url = "=2.5.8"
