[package]
name = "guess_ai"
version = "0.1.0"
edition = "2021"
publish = false

[dependencies]
aes-gcm = "=0.10.3"
base64 = "=0.22.1"
blake2 = "=0.10.6"
hkdf = "=0.12.4"
sha2 = "=0.10.9"
rand = "=0.8.8"
x25519-dalek = { version = "=2.0.1", features = ["static_secrets"] }
fastcrypto = "=0.1.11"
config = "=0.14.1"
toml = "=0.8.23"
serde = { version = "=1.0.229", features = ["derive"] }
serde_json = "=1.0.151"
reqwest = { version = "=0.12.28", default-features = false, features = ["json", "rustls-tls"] }
tokio = { version = "=1.53.2", features = ["macros", "rt-multi-thread", "signal", "sync", "time", "net"] }
axum = "=0.7.9"
tower-http = { version = "=0.5.2", features = ["cors"] }
clap = { version = "=4.6.7", features = ["derive"] }
dotenv = "=0.15.0"
tracing = "=0.1.44"
tracing-subscriber = { version = "=0.3.23", features = ["env-filter"] }
anyhow = "=1.0.104"
thiserror = "=1.0.69"
