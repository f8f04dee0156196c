[package]
name = "rumax"
version = "0.1.0"
edition = "2021"
publish = false

[dependencies]
chrono = { version = "=0.4.45", default-features = false, features = ["clock", "std"] }
hex = "=0.4.3"
rand = "=0.8.8"
sha2 = "=0.10.9"
serde = { version = "=1.0.229", features = ["derive"] }
serde_json = "=1.0.154"
tokio = { version = "=1.54.1", features = ["sync", "time", "macros", "rt", "fs"] }
reqwest = { version = "=0.12.28", default-features = false, features = ["json", "rustls-tls"] }
