[package]
name = "companies_house"
version = "0.1.0"
edition = "2021"
publish = false

[dependencies]
bytes = "1"
serde_json = "1"
serde = { version = "1", features = ["derive"] }
serde-aux = "*"
thiserror = "*"
reqwest = { version = "*", default-features = false, features = ["rustls-tls"] }
tokio = { version = "1", features = ["time"] }
