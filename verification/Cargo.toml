[package]
name = "bento"
version = "0.1.0"
edition = "2021"
publish = false

[dependencies]
base64 = "=0.23.1"
reqwest = { version = "=0.13.5", default-features = false, features = ["json", "query"] }
serde = { version = "=1.0.229", features = ["derive"] }
serde_json = "=1.0.151"
thiserror = "=2.0.21"
time = { version = "=0.3.55", features = ["serde-well-known", "formatting", "parsing"] }
tokio = { version = "*", features = ["time"] }
wiremock = "=0.6.5"
