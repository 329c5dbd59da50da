[package]
name = "aks_spin_demo"
version = "0.1.0"
edition = "2021"
publish = false

[dependencies]
figlet-rs = "*"
spin-sdk = "*"
http = "*"
anyhow = "*"
