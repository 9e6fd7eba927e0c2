[package]
name = "open_combat"
version = "0.1.0"
edition = "2021"
publish = false

[dependencies]
rand = "=0.8.8"
crossbeam-channel = "=0.5.17"
serde = { version = "=1.0.229", features = ["derive"] }
serde_json = "=1.0.154"
structopt = "=0.3.26"
ggez = { version = "=0.9.3", default-features = false }
