[package]
name = "barkdocs"
version = "0.1.0"
edition = "2021"
publish = false

[dependencies]
pulldown-cmark = { version = "0.12", default-features = false }
regex = "1"
syntect = { version = "5", default-features = false, features = ["default-fancy"] }
ratatui = "0.29"
crossterm = "0.28"
tui-textarea = "0.7"
arboard = { version = "3", default-features = false }
anyhow = "1"
dirs = "5"
reqwest = { version = "0.12", default-features = false, features = ["blocking", "rustls-tls"] }
serde = { version = "1", features = ["derive"] }
serde_json = "1"
toml = "0.8"
