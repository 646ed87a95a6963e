[package]
name = "cim"
version = "0.1.0"
edition = "2021"
publish = false

[dependencies]
serde = { version = "1", features = ["derive"] }
serde_json = "1"
regex = "1"
chrono = "0.4"
http = "1"
sha2 = "0.10"
base64 = "0.22"
rust-argon2 = "2"
rand = "0.9"
constant_time_eq = "0.3"
uuid = { version = "1", features = ["v4"] }
validator = "0.18"
toml = "0.8"
clap = { version = "4", features = ["derive", "env"] }
jsonwebkey = { version = "0.3", features = ["pkcs-convert"] }
jsonwebtoken = "9"
rsa = "0.9"
