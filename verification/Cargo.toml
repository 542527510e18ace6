[package]
name = "akinator_rs"
version = "0.1.0"
edition = "2021"
publish = false

[dependencies]
lazy_static = "*"
reqwest = { version = "*", default-features = false, features = ["rustls-tls"] }
serde = { version = "*", features = ["derive"] }
serde_json = "*"
thiserror = "*"
