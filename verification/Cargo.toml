[package]
name = "sumsub_api"
version = "0.1.0"
edition = "2021"
publish = false

[dependencies]
hmac = "*"
sha1 = "*"
sha2 = "*"
hex = "*"
serde = { version = "*", features = ["derive"] }
serde_json = "*"
thiserror = "*"
urlencoding = "*"
reqwest = { version = "*", default-features = false, features = ["json", "multipart"] }
