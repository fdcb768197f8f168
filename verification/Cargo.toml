[package]
name = "parachain-template-node"
version = "0.1.0"
edition = "2021"
publish = false

[dependencies]
sp-timestamp = "44.0.0"
