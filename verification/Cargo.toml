[package]
name = "chain_follow"
version = "0.1.0"
edition = "2021"
publish = false

[dependencies]
pallas = "0.19"
gasket = { version = "0.5", features = ["derive"] }
tokio = { version = "1", features = ["rt", "rt-multi-thread", "sync", "macros"] }
tonic = { version = "0.9", features = ["tls"] }
tonic-web = "0.9"
utxorpc = "1.0.0-alpha.1"
serde = { version = "1", features = ["derive"] }
async-trait = "0.1"
tracing = "0.1"
