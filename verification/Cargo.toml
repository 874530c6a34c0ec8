[package]
name = "cc_switch"
version = "0.1.0"
edition = "2021"
publish = false

[dependencies]
serde = { version = "1", features = ["derive"] }
serde_json = "1"
log = "0.4"
inquire = "*"
chrono = "0.4"
crossterm = "*"
