[package]
name = "codex_git"
version = "0.1.0"
edition = "2021"
publish = false

[dependencies]
git2 = "*"
git2_credentials = "*"

[dev-dependencies]
tempfile = "*"
