[package]
name = "ccxt_rust"
version = "0.1.0"
edition = "2021"
publish = false

[dependencies]
rust_decimal = "1"
hmac = "0.12"
sha2 = "0.10"
md5 = "0.7"
hex = "0.4"
base64 = "0.22"
serde = { version = "1", features = ["derive"] }
serde_json = "1"
chrono = { version = "0.4", default-features = false, features = ["alloc", "std", "clock"] }
urlencoding = "2"
uuid = { version = "1", features = ["v4"] }
async-trait = "0.1"
futures-util = { version = "0.3", default-features = false, features = ["std", "sink"] }
tokio = { version = "1", default-features = false, features = ["sync", "rt", "macros", "time"] }
tokio-tungstenite = { version = "*", default-features = false, features = ["connect"] }
reqwest = { version = "*", default-features = false, features = ["json"] }
