[package]
name = "vrf_policy"
version = "0.1.0"
edition = "2021"
publish = false

[dependencies]
anyhow = "=1.0.104"
ipnet = "=2.12.2"
tokio = { version = "=1.54.1", features = ["macros", "rt", "sync"] }
