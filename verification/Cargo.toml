[package]
name = "fuzgit"
version = "0.1.0"
edition = "2021"
publish = false

[dependencies]
clap = { version = "=4.6.7", features = ["string"] }
gix = "=0.90.0"
ratatui = { version = "=0.30.2", default-features = false }
skim = { version = "=5.9.0", default-features = false }
unicode-width = "=0.2.3"
