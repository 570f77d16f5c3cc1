[package]
name = "oatproxy"
version = "0.1.0"
edition = "2021"
publish = false

[dependencies]
base64 = "0.22"
sha2 = "0.10"
serde_json = "1"
serde = { version = "1", features = ["derive"] }
p256 = { version = "0.13", features = ["ecdsa"] }
rand = "0.8"
hex = "0.4"
urlencoding = "2"
chrono = "0.4"
url = "2"
jose-jwk = "0.1"
dpop-verifier = "*"
jacquard-oauth = "*"
jacquard-common = "*"
jacquard-identity = "*"
axum = "0.8"
tokio = { version = "1", features = ["rt-multi-thread", "macros"] }
reqwest = { version = "0.12", default-features = false, features = ["json"] }
serde_urlencoded = "0.7"
async-trait = "0.1"
tracing = "0.1"
anyhow = "1"
http = "1"
