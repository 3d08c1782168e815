[package]
name = "azure_fn_adapter"
version = "0.1.0"
edition = "2021"
publish = false

[dependencies]
serde_json = "1"
md5 = "0.7"
chrono = "0.4"
chrono-tz = "*"
serde = { version = "1", features = ["derive"] }
serde_qs = "*"
tide = "0.16"
async-std = { version = "1", features = ["attributes"] }
surf = { version = "2", default-features = false, features = ["h1-client-rustls"] }
http-types = "2"
