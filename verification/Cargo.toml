[package]
name = "kalatori"
version = "0.1.0"
edition = "2021"
publish = false

[dependencies]
substrate-crypto-light = "=0.2.0"
mnemonic-external = "=0.1.0"
const-hex = "=1.19.3"
hex = "=0.4.3"
time = { version = "=0.3.55", features = ["formatting"] }
zeroize = "=1.9.1"
serde = { version = "=1.0.229", features = ["derive"] }
serde_json = "=1.0.154"
tokio = { version = "=1.54.1", features = ["rt-multi-thread", "sync", "time", "macros"] }
tokio-util = { version = "=0.7.20", features = ["rt"] }
jsonrpsee = { version = "=0.26.1", features = ["ws-client"] }
tracing = "=0.1.44"
frame-metadata = { version = "=18.0.0", features = ["current", "decode"] }
substrate_parser = "=0.7.1"
substrate-constructor = "=0.2.1"
parity-scale-codec = { version = "=3.7.5", features = ["derive"] }
redb = "=4.4.0"
anyhow = "=1.0.104"
