[package]
name = "snippet_cache"
version = "0.1.0"
edition = "2021"
publish = false

[dependencies]
sha2 = "*"
git2 = { version = "*", default-features = false }
tempfile = "*"
clap = { version = "*", features = ["derive"] }
