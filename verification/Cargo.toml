[package]
name = "jcode_kit"
version = "0.1.0"
edition = "2021"
publish = false

[dependencies]
anyhow = "1"
base64 = "0.22"
image = { version = "0.25", default-features = false, features = ["jpeg", "png"] }
pdf-extract = "*"
serde_json = { version = "1", features = ["preserve_order"] }
