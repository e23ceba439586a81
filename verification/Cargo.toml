[package]
name = "sdb_client"
version = "0.1.0"
edition = "2021"
publish = false

[dependencies]
bufstream = "0.1"
serde_json = "1"
