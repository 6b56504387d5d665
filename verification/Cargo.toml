[package]
name = "newsletter"
version = "0.1.0"
edition = "2021"
publish = false

[dependencies]
chrono = "0.4"
confy = "0.5"
env_logger = "0.10"
lettre = "0.9"
log = "0.4"
native-tls = "0.2"
reqwest = { version = "0.11", features = ["blocking", "json"] }
rusqlite = "0.29"
serde = "1"
serde_derive = "1"
