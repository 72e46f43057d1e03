[package]
name = "bevy_studio"
version = "0.1.0"
edition = "2021"
publish = false

[dependencies]
jsonwebtoken = "=8.3.0"
chrono = "=0.4.45"
uuid = { version = "=1.29.1", features = ["v4"] }
serde = { version = "=1.0.229", features = ["derive"] }
serde_json = "=1.0.154"
hyper = "=0.14.32"
rocket = { version = "=0.5.2", features = ["json"] }
reqwest = { version = "=0.11.27", default-features = false, features = ["json"] }
tokio = { version = "=1.54.1", features = ["macros", "rt-multi-thread", "time", "io-util"] }
async-trait = "=0.1.92"
rusoto_core = { version = "=0.48.0", default-features = false, features = ["rustls"] }
rusoto_s3 = { version = "=0.48.0", default-features = false, features = ["rustls"] }
rusoto_credential = "=0.48.0"
rusoto_signature = "=0.48.0"
