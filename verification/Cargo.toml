[package]
name = "freeze"
version = "0.1.0"
edition = "2021"
publish = false

[dependencies]
async-trait = "=0.1.92"
ethers-core = "=2.0.14"
ethers-providers = { version = "=2.0.14", default-features = false, features = ["rustls"] }
governor = "=0.6.3"
prefix-hex = "=0.7.1"
reqwest = { version = "=0.11.27", default-features = false, features = ["rustls-tls"] }
serde_json = "=1.0.154"
tokio = { version = "=1.54.1", features = ["macros", "rt-multi-thread", "sync", "time"] }
