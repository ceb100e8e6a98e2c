[package]
name = "rustweb"
version = "0.1.0"
edition = "2021"
publish = false

[dependencies]
rustc-hash = "=2.1.3"
serde_urlencoded = "=0.7.1"
mime = "=0.3.17"
pdf-min = "=0.1.24"
rustdb = { version = "=5.2.115", features = ["serde"] }
tokio = { version = "=1.54.1", features = ["full"] }
reqwest = "=0.12.28"
lettre = "=0.11.23"
rmp-serde = "=1.3.1"
bincode = "=1.3.3"
flate3 = "=1.2.5"
argon2rs = "=0.2.5"
serde_json = "=1.0.154"
clap = { version = "=4.6.7", features = ["derive"] }
mimalloc = "=0.1.52"
