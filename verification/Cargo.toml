[package]
name = "parachain_node"
version = "0.1.0"
edition = "2021"
publish = false

[dependencies]
sp-core = "*"
sp-weights = "*"
clap = { version = "4", features = ["derive"] }
serde = { version = "1", features = ["derive"] }
serde_json = "1"
