[package]
name = "activity_report"
version = "0.1.0"
edition = "2021"
publish = false

[dependencies]
tiktoken-rs = "=0.12.1"
twox-hash = "=1.6.3"
base64 = "=0.13.1"
urlencoding = "=2.1.3"
http_req = "=0.14.6"
serde = { version = "1", features = ["derive"] }
serde_json = "1"
chrono = { version = "=0.4.45", features = ["serde"] }
log = "0.4"
dotenv = "*"
