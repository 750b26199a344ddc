[package]
name = "sso"
version = "0.1.0"
edition = "2021"
publish = false

[dependencies]
bcrypt = "=0.15.1"
chrono = { version = "=0.4.45", default-features = false, features = ["clock", "std", "serde"] }
jsonwebtoken = { version = "=9.3.1", default-features = false }
oauth2 = { version = "=4.4.2", default-features = false, features = ["reqwest"] }
reqwest = { version = "=0.11.27", default-features = false, features = ["blocking", "json"] }
serde = { version = "=1.0.229", features = ["derive"] }
serde_json = "=1.0.154"
url = "=2.5.8"
uuid = { version = "=1.29.0", features = ["v4", "serde"] }
validator = "=0.16.1"
