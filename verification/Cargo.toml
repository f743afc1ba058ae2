[package]
name = "gungnir"
version = "0.1.0"
edition = "2021"
publish = false

[dependencies]
blake3 = "=0.3.8"
digest = "=0.9.0"
sha2 = "=0.9.9"
sha3 = "=0.9.1"
ed25519-dalek = "=1.0.1"
rand = "=0.7.3"
pqcrypto = { version = "=0.18.1", default-features = false, features = ["pqcrypto-falcon"] }
serde = { version = "=1.0.229", features = ["derive"] }
thiserror = "=1.0.69"
clap = { version = "=4.6.7", features = ["derive"] }
