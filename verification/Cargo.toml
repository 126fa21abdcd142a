[package]
name = "kampela_core"
version = "0.1.0"
edition = "2021"
publish = false

[dependencies]
clap = { version = "=4.6.7", features = ["derive"] }
crc32fast = "=1.5.3"
embedded-graphics = "=0.8.2"
embedded-graphics-core = "=0.4.1"
embedded-graphics-simulator = "=0.8.0"
hex = "=0.4.3"
lazy_static = "=1.5.1"
mnemonic-external = "=0.1.0"
nalgebra = "=0.35.0"
rand = "=0.8.8"
serde = { version = "1", features = ["derive"] }
serde_json = "1"
substrate-crypto-light = "=0.2.0"
