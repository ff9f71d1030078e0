[package]
name = "liftinstall"
version = "0.1.0"
edition = "2021"
publish = false

[dependencies]
regex = "*"
slug = "*"
zip = { version = "*", default-features = false, features = ["deflate"] }
tar = "*"
xz2 = "*"
reqwest = { version = "*", default-features = false, features = ["blocking", "json", "rustls-tls"] }
serde = { version = "*", features = ["derive"] }
serde_json = "*"
toml = "*"
jsonwebtoken = "*"
base64 = "*"
sysinfo = "*"
dirs = "*"
