[package]
name = "meteobar"
version = "0.1.0"
edition = "2021"
publish = false

[dependencies]
unicode-width = "0.1"
chrono = "0.4"
serde = { version = "1", features = ["derive"] }
serde_json = "1"
clap = { version = "4", features = ["derive"] }
dirs = "5"
reqwest = { version = "0.12", default-features = false, features = ["blocking", "json", "rustls-tls"] }
