[package]
name = "rtquote"
version = "0.1.0"
edition = "2021"
publish = false

[dependencies]
anyhow = "*"
async-trait = "*"
log = "*"
reqwest = { version = "*", default-features = false }
