[package]
name = "twilio_async"
version = "0.1.0"
edition = "2021"
publish = false

[dependencies]
http = "=0.2.12"
hyper = { version = "=0.14.32", features = ["client", "http1", "tcp"] }
hyper-tls = "=0.5.0"
serde = "1"
serde_json = "=1.0.151"
typed-headers = "=0.2.0"

[dev-dependencies]
url = "=2.5.8"
xml-rs = "=0.8.29"
