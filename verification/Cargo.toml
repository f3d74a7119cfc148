[package]
name = "crowbar"
version = "0.1.0"
edition = "2021"
publish = false

[dependencies]
anyhow = "*"
base64 = "0.13"
chrono = "*"
keyring = "1"
reqwest = { version = "0.11", default-features = false, features = ["blocking", "json", "cookies", "rustls-tls"] }
rust-ini = "*"
select = "*"
serde = { version = "1", features = ["derive"] }
serde_json = "1"
sha2 = "*"
sxd-document = "*"
sxd-xpath = "*"
toml = "*"
url = "2"
