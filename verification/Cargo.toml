[package]
name = "domain_client"
version = "0.1.0"
edition = "2021"
publish = false

[dependencies]
reqwest = { version = "0.12", default-features = false, features = ["json"] }
serde = { version = "1", features = ["derive"] }

[dev-dependencies]
http = "1"
serde_json = "1"
tokio = { version = "1", features = ["rt"] }
