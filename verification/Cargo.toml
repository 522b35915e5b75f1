[package]
name = "bridging_solana"
version = "0.1.0"
edition = "2021"
publish = false

[dependencies]
fixed = "*"
anyhow = "*"
dotenvy = "*"
serde_json = "*"
tokio = { version = "*", features = ["macros", "rt-multi-thread", "time"] }
