[package]
name = "mx_interact"
version = "0.1.0"
edition = "2021"
publish = false

[dependencies]
bech32 = "=0.11.1"
multiversx-sc = "=0.53.2"
multiversx-sc-modules = "=0.53.2"
multiversx-sc-scenario = "=0.53.2"
multiversx-sc-snippets = "=0.53.2"
serde = { version = "=1.0.210", features = ["derive"] }
tokio = { version = "=1.54.1", features = ["macros", "rt-multi-thread"] }
toml = "=0.8.23"
env_logger = "=0.11.6"
