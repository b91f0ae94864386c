[package]
name = "ruoyi_forge"
version = "0.1.0"
edition = "2021"
publish = false

[dependencies]
md-5 = "=0.10.6"
regex = "=1.13.1"
encoding_rs = "=0.8.44"
serde = { version = "=1.0.229", features = ["derive"] }
serde_json = "=1.0.154"
walkdir = "=2.5.0"
chrono = "=0.4.45"
bcrypt = "*"
serde_yaml = "0.9"
zip = { version = "*", default-features = false, features = ["deflate"] }
thiserror = "*"
