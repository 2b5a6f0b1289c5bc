[package]
name = "secret_store"
version = "0.1.0"
edition = "2021"
publish = false

[dependencies]
k256 = { version = "=0.13.4", features = ["ecdsa", "arithmetic"] }
sha2 = "=0.10.9"
hmac = "=0.12.1"
aes = "=0.8.4"
ctr = "=0.9.2"
cipher = "=0.4.4"
rand_core = { version = "=0.6.4", features = ["getrandom"] }
serde = { version = "=1.0.229", features = ["derive"] }
serde_json = "=1.0.151"
