[package]
name = "sealed_auction"
version = "0.1.0"
edition = "2021"
publish = false

[dependencies]
sha2 = "=0.10.9"
anchor-lang = "=0.32.2"
ephemeral-rollups-sdk = { version = "=0.17.3", features = ["anchor-compat", "access-control"] }
