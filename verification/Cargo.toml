[package]
name = "web_map"
version = "0.1.0"
edition = "2021"
publish = false

[dependencies]
html5ever = "0.26"
url = "2"
reqwest = { version = "0.12", default-features = false, features = ["blocking", "default-tls"] }
