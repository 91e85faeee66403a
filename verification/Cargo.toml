[package]
name = "lucchat"
version = "0.1.0"
edition = "2021"
publish = false

[dependencies]
x25519-dalek = "=2.0.1"
ed25519-dalek = "2"
hkdf = "=0.12.4"
sha2 = "=0.10.9"
serde = { version = "=1.0.229", features = ["derive"] }
serde_json = "=1.0.154"
chrono = { version = "=0.4.45", default-features = false, features = ["clock"] }
lazy_static = "=1.5.1"
reqwest = { version = "=0.12.28", default-features = false, features = ["json"] }
rand = "=0.8.8"
