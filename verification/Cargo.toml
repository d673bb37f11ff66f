[package]
name = "eep2p"
version = "0.1.0"
edition = "2021"
publish = false

[dependencies]
aes-gcm = "=0.10.3"
hkdf = "=0.12.4"
sha2 = "=0.10.9"
generic-array = { version = "=0.14.7", features = ["serde"] }
typenum = "=1.20.1"
x25519-dalek = { version = "=2.0.1", features = ["getrandom", "serde", "static_secrets"] }
ed25519-dalek = { version = "=2.2.0", features = ["rand_core", "serde"] }
uuid = { version = "=1.29.0", features = ["v4", "serde"] }
timedmap = "=1.0.2"
tokio = { version = "=1.54.1", features = ["full"] }
tokio-util = { version = "=0.7.20", features = ["codec"] }
tokio-serde = { version = "=0.9.0", features = ["messagepack"] }
futures-util = { version = "=0.3.34", features = ["sink"] }
serde = { version = "=1.0.229", features = ["derive"] }
serde_json = "=1.0.154"
rmp-serde = "=1.3.1"
thiserror = "=2.0.21"
anyhow = "=1.0.104"
pgp = "*"
