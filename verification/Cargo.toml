[package]
name = "crm_domain"
version = "0.1.0"
edition = "2021"
publish = false

[dependencies]
chrono = { version = "=0.4.45", default-features = false, features = ["clock", "std", "serde"] }
regex = "=1.13.1"
serde = { version = "=1.0.229", features = ["derive"] }
