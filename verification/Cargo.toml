[package]
name = "equivcheck"
version = "0.1.0"
edition = "2021"
publish = false

[dependencies]
similar = "2"
wait-timeout = "0.2"
clap = { version = "4", features = ["derive"] }
colored = "2"
env_logger = "0.10"
log = "0.4"
serde = { version = "1", features = ["derive"] }
serde_derive = "1"
toml = "0.8"
thiserror = "1"
