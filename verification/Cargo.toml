[package]
name = "mdsite"
version = "0.1.0"
edition = "2021"
publish = false

[dependencies]
serde_yaml = "*"
pulldown-cmark = "*"
slug = "*"
image = "*"
reqwest = { version = "*", default-features = false, features = ["blocking", "rustls-tls"] }
