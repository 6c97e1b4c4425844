[package]
name = "lynx_shell"
version = "0.1.0"
edition = "2021"
publish = false

[dependencies]
lynx = { version = "=0.2.0", default-features = false }
