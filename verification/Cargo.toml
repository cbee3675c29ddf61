[package]
name = "supply_verifier"
version = "0.1.0"
edition = "2021"
publish = false

[dependencies]
anyhow = "*"
clap = { version = "*", features = ["derive"] }
mwc_chain = "*"
mwc_core = "*"
mwc_util = "*"
