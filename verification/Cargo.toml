[package]
name = "fractal"
version = "0.1.0"
edition = "2021"
publish = false

[dependencies]
gettext-rs = { version = "=0.7.7", features = ["gettext-system"] }
matrix-sdk = { version = "=0.18.0", default-features = false, features = ["local-server", "sso-login"] }
numeric-sort = "=0.1.5"
tokio = { version = "1", features = ["rt", "sync"] }
tracing = "0.1"
url = "=2.5.8"
