[package]
name = "gat"
version = "0.1.0"
edition = "2021"
publish = false

[dependencies]
anyhow = "*"
clap = { version = "*", features = ["derive"] }
colored = "*"
git2 = { version = "*", default-features = false }
serde = { version = "*", features = ["derive"] }
toml = "*"
