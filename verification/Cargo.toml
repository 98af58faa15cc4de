[package]
name = "auto_tag"
version = "0.1.0"
edition = "2021"
publish = false

[dependencies]
anyhow = "1"
clap = { version = "4", features = ["derive"] }
git2 = "0.19"
serde_json = "1"
toml = "0.8"
walkdir = "2"
