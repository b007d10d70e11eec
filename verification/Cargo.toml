[package]
name = "rdoc"
version = "0.1.0"
edition = "2021"
publish = false

[dependencies]
anyhow = "1"
clap = { version = "4", features = ["derive"] }
env_logger = "*"
log = "0.4"
open = "*"
pulldown-cmark = "0.9"
rustdoc-types = "*"
serde_json = "1"
