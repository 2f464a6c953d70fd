[package]
name = "crunchy-cli-core"
version = "0.1.0"
edition = "2021"
publish = false

[dependencies]
anyhow = "=1.0.104"
clap = { version = "=4.6.7", features = ["derive"] }
crunchyroll-rs = { version = "=0.8.6", features = ["experimental-stabilizations", "tower"] }
ctrlc = "=3.5.2"
dialoguer = "=0.11.0"
log = "=0.4.34"
reqwest = { version = "=0.11.27", default-features = false, features = ["native-tls", "stream"] }
rustls-native-certs = "=0.7.3"
