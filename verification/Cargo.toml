[package]
name = "argus"
version = "0.1.0"
edition = "2021"
publish = false

[dependencies]
index_vec = "0.1"
rust-numerals = "*"
serde = { version = "1", features = ["derive"] }
serde_json = "1"
log = "0.4"
clap = { version = "4", features = ["derive"] }
anyhow = "1"
quote = "1"
syn = { version = "2", features = ["full"] }
