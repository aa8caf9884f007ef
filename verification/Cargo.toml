[package]
name = "chatix_protocol"
version = "0.1.0"
edition = "2021"
publish = false

[dependencies]
hkdf = "=0.13.0"
ml-dsa = "=0.1.2"
ml-kem = { version = "=0.3.4", features = ["getrandom"] }
rand_core = { version = "=0.6.4", features = ["getrandom"] }
ring = "=0.17.14"
sha2 = "=0.11.1"
x25519-dalek = { version = "=2.0.1", features = ["static_secrets"] }
zeroize = { version = "=1.9.1", features = ["derive"] }
thiserror = "=2.0.21"
tokio = { version = "=1.54.1", features = ["io-util"] }
