[package]
name = "member_info"
version = "0.1.0"
edition = "2021"
publish = false

[dependencies]
chrono = { version = "=0.4.45", features = ["serde"] }
humantime = "=2.4.0"
isolang = "=2.4.0"
itertools = "=0.15.0"
log = "=0.4.34"
reqwest = { version = "=0.13.5", default-features = false, features = ["blocking", "json"] }
serde = { version = "=1.0.229", features = ["derive"] }
serenity = { version = "=0.12.5", default-features = false, features = ["builder", "model", "rustls_backend"] }
