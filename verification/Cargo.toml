[package]
name = "dns_bridge"
version = "0.1.0"
edition = "2021"
publish = false

[dependencies]
c-ares = "*"
log = "*"
rotor = "*"
