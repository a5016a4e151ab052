[package]
name = "wiki_tui_config"
version = "0.1.0"
edition = "2021"
publish = false

[dependencies]
anyhow = "1"
dirs = "*"
log = "0.4"
reqwest = { version = "*", features = ["blocking"] }
rust-ini = "*"
