[package]
name = "bwrs"
version = "0.1.0"
edition = "2021"
publish = false

[dependencies]
argon2 = "0.5"
base64 = "0.22"
clap = { version = "4", features = ["derive"] }
clap_complete = "4"
dialoguer = "0.11"
eyre = "0.6"
hkdf = "0.12"
pbkdf2 = "0.12"
reqwest = { version = "0.12", default-features = false, features = ["blocking", "json"] }
serde_json = "1"
sha2 = "0.10"
uuid = { version = "1", features = ["v4"] }
