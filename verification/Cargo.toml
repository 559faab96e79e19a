[package]
name = "rcli"
version = "0.1.0"
edition = "2021"
publish = false

[dependencies]
anyhow = "1"
axum = "*"
base64 = "0.22"
blake3 = "1"
chacha20poly1305 = "0.10"
chrono = "*"
clap = { version = "4", features = ["derive"] }
csv = "1"
duration-str = "*"
ed25519-dalek = { version = "2", features = ["rand_core"] }
jsonwebtoken = "*"
rand = "0.8"
serde = { version = "1", features = ["derive"] }
serde_json = "1"
serde_yaml = "*"
tokio = { version = "1", features = ["rt-multi-thread", "macros", "fs", "net"] }
tower-http = { version = "*", features = ["fs"] }
tracing = "*"
tracing-subscriber = "*"
zxcvbn = "*"
