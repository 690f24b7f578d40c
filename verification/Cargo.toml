[package]
name = "engine"
version = "0.1.0"
edition = "2021"
publish = false

[dependencies]
sha2 = "=0.10.9"
hex = "=0.4.3"
x509-parser = "=0.18.1"
rcgen = "=0.14.10"
rustls-pemfile = "=2.2.0"
rustls = { version = "=0.23.46", default-features = false, features = ["ring", "std", "tls12", "logging"] }
tokio-rustls = { version = "=0.26.6", default-features = false, features = ["ring", "tls12", "logging"] }
tokio = { version = "=1.54.1", features = ["rt-multi-thread", "net", "io-util", "time"] }
reqwest = { version = "=0.12.28", default-features = false, features = ["json", "rustls-tls"] }
redb = "=4.4.0"
serde = { version = "=1.0.229", features = ["derive"] }
serde_json = "=1.0.154"
thiserror = "=2.0.21"
log = "=0.4.35"
simplelog = "=0.12.2"
bytes = "=1.12.1"
rtc-shared = "=0.21.1"
rtc-stun = "=0.21.1"
sansio = "=1.0.1"
uniffi = { version = "*", default-features = false }
