[package]
name = "cli_parsers"
version = "0.1.0"
edition = "2021"
publish = false

[dependencies]
alloy-eips = { version = "*", default-features = false, features = ["std"] }
alloy-primitives = { version = "*", default-features = false, features = ["std"] }
eyre = "*"
reth-fs-util = "*"
serde = "*"
thiserror = "*"

[dev-dependencies]
rand = "0.9"
