[package]
name = "geyser_plugin_explorer"
version = "0.1.0"
edition = "2021"
publish = false

[dependencies]
agave-geyser-plugin-interface = "~2.0"
log = "0.4"
once_cell = "1"
redis = { version = "*", default-features = false }
serde = "1"
serde_json = "1"
simplelog = { version = "0.12", default-features = false }
solana-sdk = "~2.0"
solana-transaction-status = "~2.0"
