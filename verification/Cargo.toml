[package]
name = "craby"
version = "0.1.0"
edition = "2021"
publish = false

[dependencies]
anyhow = "*"
chrono = "*"
convert_case = "*"
email_address = "*"
indexmap = "*"
inquire = "*"
jni = "*"
owo-colors = "*"
serde = "*"
serde_derive = "*"
serde_json = "*"
url = "*"
xxhash-rust = { version = "*", features = ["xxh3"] }
