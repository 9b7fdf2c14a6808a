[package]
name = "release_util"
version = "0.1.0"
edition = "2021"
publish = false

[dependencies]
anyhow = "1"
clap = { version = "4", features = ["derive"] }
git2 = { version = "0.19", default-features = false }
semver = "1"
serde_json = "1"
toml = "0.8"
url = "2"
