[package]
name = "commit_prompt"
version = "0.1.0"
edition = "2021"
publish = false

[dependencies]
git2 = { version = "*", default-features = false }
rustyline = "*"

[dev-dependencies]
tempfile = "*"
