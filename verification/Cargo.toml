[package]
name = "postkast"
version = "0.1.0"
edition = "2021"
publish = false

[dependencies]
config = "=0.15.27"
directories = "=6.0.0"
imap = "=2.4.1"
imap-proto = "=0.10.2"
native-tls = "=0.2.18"
serde = { version = "=1.0.229", features = ["derive"] }
toml = "=1.1.8"
