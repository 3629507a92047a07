[package]
name = "rust_shop"
version = "0.1.0"
edition = "2021"
publish = false

[dependencies]
cookie = { version = "=0.16.2", features = ["private", "percent-encode"] }
bcrypt = "=0.13.0"
uuid = { version = "=1.29.1", features = ["v4"] }
chrono = "=0.4.45"
form_urlencoded = "=1.2.2"
Inflector = "=0.11.4"
mime = "=0.3.17"
substring = "=1.4.5"
serde = { version = "=1.0.229", features = ["derive"] }
serde_json = "=1.0.154"
serde_yaml = "=0.9.34"
jsonwebtoken = "=8.3.0"
thiserror = "=1.0.69"
redis = "=0.22.4"
r2d2 = "=0.8.10"
route-recognizer = "=0.3.1"
tera = { version = "=1.20.1", default-features = false }
syn = { version = "=1.0.109", features = ["full"] }
proc-macro2 = "=1.0.107"
walkdir = "=2.5.0"
