[package]
name = "coffee_shop"
version = "0.1.0"
edition = "2021"
publish = false

[dependencies]
base64 = "0.13"
uuid = { version = "1", features = ["v4"] }
chrono = { version = "0.4", default-features = false, features = ["clock"] }
rusoto_core = { version = "0.48", default-features = false, features = ["rustls"] }
rusoto_credential = "0.48"
rusoto_dynamodb = { version = "0.48", default-features = false, features = ["rustls"] }
tokio = { version = "1", features = ["rt-multi-thread", "macros"] }
serde_json = "1"
