[package]
name = "vrrp"
version = "0.1.0"
edition = "2021"
publish = false

[dependencies]
pnet_base = { version = "*", default-features = false }
