[package]
name = "openlimits"
version = "0.1.0"
edition = "2021"
publish = false

[dependencies]
base64 = "=0.23.1"
hmac = "=0.13.0"
sha2 = "=0.11.0"
serde = { version = "=1.0.229", features = ["derive"] }
serde_json = "=1.0.151"
async-trait = "=0.1.92"
reqwest = { version = "=0.13.5", default-features = false, features = ["json"] }
chrono = "*"
