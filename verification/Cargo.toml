[package]
name = "meta_tx"
version = "0.1.0"
edition = "2021"
publish = false

[dependencies]
ink = { version = "=4.3.0", features = ["std"] }
k256 = "=0.14.0"
parity-scale-codec = "=3.7.5"

[dev-dependencies]
blake2 = "=0.10.6"
