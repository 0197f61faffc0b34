[package]
name = "auction_service"
version = "0.1.0"
edition = "2021"
publish = false

[dependencies]
jsonwebtoken = { version = "10.3", default-features = false, features = ["rust_crypto"] }
validator = "=0.8.0"
serde = "=1.0.229"
serde_derive = "=1.0.229"
serde_json = "=1.0.154"
json = "=0.11.15"
diesel = { version = "=1.4.8", features = ["sqlite"] }
