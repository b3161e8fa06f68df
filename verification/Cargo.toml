[package]
name = "mdbook_minijinja"
version = "0.1.0"
edition = "2021"
publish = false

[dependencies]
minijinja = "2"
mdbook = { version = "0.4", default-features = false }
toml = "*"
serde = { version = "1", features = ["derive"] }
serde_json = "1"
anyhow = "1"
clap = "4"
env_logger = "0.11"
log = "0.4"
semver = "1"
