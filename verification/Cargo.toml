[package]
name = "vpn_core"
version = "0.1.0"
edition = "2021"
publish = false

[dependencies]
serde_json = "1"
rand = "0.8"
libc = "0.2"
log = "0.4"
