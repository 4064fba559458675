[package]
name = "ares_core"
version = "0.1.0"
edition = "2021"
publish = false

[dependencies]
ar = "0.9"
flate2 = "1"
tar = "0.4"
snailquote = "0.3"
path-slash = "0.2"
serde = { version = "1", features = ["derive"] }
serde_json = "1"
libssh-rs = "*"
clap = { version = "4", features = ["derive", "env"] }
home = "0.5"
log = "0.4"
