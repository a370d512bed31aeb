[package]
name = "drot"
version = "0.11.1"
edition = "2021"
publish = false

[dependencies]
unicode-width = "0.2"
semver = "=1.0.28"
xmltree = "=0.11.0"
toml_edit = "=0.22.27"
toml = "=0.8.23"
serde = { version = "=1.0.229", features = ["derive"] }
anyhow = "=1.0.104"
ratatui-interact = "*"
