[package]
name = "squalo"
version = "0.1.5"
edition = "2021"
publish = false

[dependencies]
async-tungstenite = { version = "*", features = ["async-std-runtime", "async-tls"] }
futures = "0.3"
futures-channel = "0.3"
polipo = "*"
url = "2"
