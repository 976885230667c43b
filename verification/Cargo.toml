[package]
name = "git_release"
version = "0.1.0"
edition = "2021"
publish = false

[dependencies]
clap = { version = "=4.6.7", features = ["cargo"] }
git2 = { version = "=0.20.4", default-features = false }
serde = { version = "=1.0.229", features = ["derive"] }
serde_json = { version = "=1.0.154", features = ["float_roundtrip"] }
thiserror = "=2.0.21"
toml_edit = "=0.22.27"
