[package]
name = "glance"
version = "0.1.0"
edition = "2021"
publish = false

[dependencies]
serde = { version = "1", features = ["derive"] }
serde_json = "1"
base64 = "0.22"
rand = "0.8"
uuid = { version = "1", features = ["v4"] }
http = "1"
futures-util = "0.3"
tokio = { version = "1", features = ["time", "rt", "macros"] }
tokio-tungstenite = { version = "0.26", features = ["rustls-tls-webpki-roots"] }
reqwest = { version = "0.12", default-features = false, features = ["json", "stream", "rustls-tls"] }
