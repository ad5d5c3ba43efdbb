[package]
name = "construct_tui"
version = "0.1.0"
edition = "2021"
publish = false

[dependencies]
aes-gcm = "=0.10.3"
anyhow = "=1.0.104"
argon2 = "=0.5.3"
base64 = "=0.22.1"
clap = { version = "=4.6.7", features = ["derive"] }
crossterm = { version = "=0.28.1", features = ["event-stream"] }
dirs = "=5.0.1"
ed25519-dalek = "=2.2.0"
hex = "=0.4.3"
hkdf = "=0.12.4"
prost = "=0.13.5"
qrcode = { version = "=0.14.1", default-features = false }
rand = "=0.8.8"
ratatui = "=0.29.0"
rusqlite = { version = "=0.31.0", features = ["bundled-sqlcipher-vendored-openssl"] }
serde = { version = "=1.0.229", features = ["derive"] }
serde_json = "=1.0.154"
sha2 = "=0.10.9"
tokio = { version = "=1.54.1", features = ["rt-multi-thread", "macros", "sync", "time"] }
tonic = { version = "=0.12.3", features = ["tls", "tls-native-roots"] }
tracing = "=0.1.44"
tracing-subscriber = { version = "=0.3.23", features = ["env-filter"] }
uuid = { version = "=1.29.0", features = ["v4"] }
zeroize = "=1.9.1"
