[package]
name = "l1x_forge"
version = "0.1.0"
edition = "2021"
publish = false

[dependencies]
anyhow = "=1.0.104"
clap = { version = "=4.6.7", features = ["derive"] }
config = { version = "=0.13.4", default-features = false, features = ["yaml"] }
ethers = { version = "2", default-features = false }
hex = "=0.4.3"
k256 = "=0.13.4"
libp2p = { version = "=0.56.0", default-features = false, features = ["secp256k1"] }
log = "=0.4.34"
reqwest = { version = "=0.11.27", default-features = false, features = ["json"] }
secp256k1 = { version = "=0.27.0", features = ["global-context", "bitcoin-hashes-std"] }
serde = { version = "=1.0.229", features = ["derive"] }
serde_json = "=1.0.154"
serde_yaml = "=0.9.34"
sha3 = "=0.10.9"
thiserror = "=1.0.69"
tokio = { version = "=1.54.1", features = ["macros", "rt-multi-thread", "time", "sync"] }
tracing-subscriber = "=0.3.23"
