[package]
name = "vault_whitelist"
version = "0.1.0"
edition = "2021"
publish = false

[dependencies]
solana-program = "=2.1.16"
jito-bytemuck = "=0.0.5"
jito-jsm-core = "=0.0.5"
jito-vault-core = "=0.0.5"
jito-vault-sdk = "=0.0.5"
borsh = { version = "=1.8.1", features = ["derive"] }
serde = { version = "=1.0.229", features = ["derive"] }
serde_json = "=1.0.154"
thiserror = "=1.0.69"
clap = { version = "4", features = ["derive"] }

[dev-dependencies]
bytemuck = "=1.25.2"
