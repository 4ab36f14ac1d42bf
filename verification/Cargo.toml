[package]
name = "libp2p-async-await"
version = "0.1.0"
edition = "2021"
publish = false

[dependencies]
libp2p = { version = "0.33", default-features = false }
log = "0.4"
