[package]
name = "softether_exporter"
version = "0.1.0"
edition = "2021"
publish = false

[dependencies]
anyhow = "1"
hyper = "0.10"
prometheus = "0.13"
serde = { version = "1", features = ["derive"] }
systemstat = "0.2"
toml = "0.5"
