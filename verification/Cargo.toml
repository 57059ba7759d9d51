[package]
name = "confidential_tokens"
version = "0.1.0"
edition = "2021"
publish = false

[dependencies]
anyhow = "=1.0.104"
solana-sdk = "=2.3.1"
spl-token-2022 = "=7.0.0"
spl-token-confidential-transfer-proof-extraction = "=0.2.1"
spl-token-confidential-transfer-proof-generation = "=0.3.0"
tokio = { version = "=1.53.2", features = ["macros", "rt-multi-thread"] }

[dev-dependencies]
bytemuck = "=1.25.2"
