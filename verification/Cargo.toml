[package]
name = "gymspace"
version = "0.1.0"
edition = "2021"
publish = false

[dependencies]
bcrypt = "*"
bson = "*"
chrono = "*"
serde = { version = "*", features = ["derive"] }
serde_json = "*"
validator = "*"
