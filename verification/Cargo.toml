[package]
name = "cert_issuer"
version = "0.1.0"
edition = "2021"
publish = false

[dependencies]
chacha20poly1305 = "0.10"
minicbor = { version = "0.19", features = ["alloc", "derive"] }
pem = "1"
clap = { version = "4", features = ["derive"] }
serde_json = "1"
anyhow = "1"
