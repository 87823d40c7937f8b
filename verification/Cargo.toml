[package]
name = "turingdb_core"
version = "0.1.0"
edition = "2021"
publish = false

[dependencies]
anyhow = "*"
custom_codes = "*"
serde = { version = "*", features = ["derive"] }
tai64 = "*"
