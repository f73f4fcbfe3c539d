[package]
name = "welosa"
version = "0.1.0"
edition = "2021"
publish = false

[dependencies]
anyhow = "*"
chrono = "*"
ddp-rs = "*"
dirs = "*"
rand = "0.8"
rusty_link = "*"
serde = { version = "*", features = ["derive"] }
serde_json = "*"
strum = "*"
strum_macros = "*"
