[package]
name = "bearer_auth"
version = "0.1.0"
edition = "2021"
publish = false

[dependencies]
chrono = { version = "=0.4.45", default-features = false }
failure = "=0.1.8"
frank_jwt = "=3.1.4"
http = "=1.5.0"
mime = "=0.3.17"
rusoto_core = "=0.47.0"
rusoto_dynamodb = "=0.47.0"
serde = { version = "=1.0.229", features = ["derive"] }
serde_dynamodb = { version = "=0.9.0", default-features = false, features = ["native-tls"] }
serde_json = "=1.0.154"
serde_urlencoded = "=0.7.1"
time = "=0.1.45"
uuid = { version = "=1.29.0", features = ["v4"] }

[dev-dependencies]
openssl = "=0.10.81"
