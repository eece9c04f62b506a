[package]
name = "libcnab"
version = "0.1.0"
edition = "2021"
publish = false

[dependencies]
canonical_json = "*"
serde = { version = "1", features = ["derive"] }
serde_json = "1"
