[package]
name = "emmet_bootstrap"
version = "0.1.0"
edition = "2021"
publish = false

[dependencies]
url = "=2.5.8"
serde_json = "=1.0.151"
anyhow = "=1.0.104"
lapce-plugin = "=0.1.2"
