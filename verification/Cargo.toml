[package]
name = "wca_userinfo"
version = "0.1.0"
edition = "2021"
publish = false

[dependencies]
scraper = "*"
reqwest = { version = "*", features = ["blocking"] }
iron = "*"
router = "*"
chrono = "*"
serde = { version = "*", features = ["derive"] }
serde_json = "*"
simple-error = "*"
