[package]
name = "tsid_database_id"
version = "0.1.0"
edition = "2021"
publish = false

[dependencies]
tsid = "*"
anyhow = "*"
ts-rs = "*"
serde = "*"
