[package]
name = "registrar"
version = "0.1.0"
edition = "2021"
publish = false

[dependencies]
crossbeam = "=0.8.5"
failure = "=0.1.8"
hex = "=0.4.3"
matrix-sdk = { version = "=0.16.1", default-features = false, features = ["rustls-tls"] }
rand = "=0.8.8"
schnorrkel = "=0.11.5"
serde = { version = "=1.0.229", features = ["derive"] }
serde_json = "=1.0.154"
tokio = { version = "=1.54.1", features = ["time", "rt"] }
