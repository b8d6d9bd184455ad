[package]
name = "deepseek_harness"
version = "0.1.0"
edition = "2021"
publish = false

[dependencies]
base64 = "0.22"
image = { version = "0.25", default-features = false, features = ["png", "jpeg", "ico"] }
serde = { version = "1", features = ["derive"] }
serde_json = "1"
ureq = "2"
url = "2"
