[package]
name = "bitflyer"
version = "0.1.0"
edition = "2021"
publish = false

[dependencies]
anyhow = "=1.0.104"
chrono = "=0.4.45"
hmac = "=0.12.1"
reqwest = { version = "=0.12.28", default-features = false, features = ["rustls-tls"] }
rust_decimal = "=1.43.0"
serde_json = { version = "=1.0.154", features = ["arbitrary_precision", "preserve_order"] }
sha2 = "=0.10.9"
tracing = "=0.1.44"
