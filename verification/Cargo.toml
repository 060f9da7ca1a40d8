[package]
name = "oidc_core"
version = "0.1.0"
edition = "2021"
publish = false

[dependencies]
askama = "=0.12.1"
askama_axum = "=0.4.0"
axum = { version = "=0.7.9", features = ["macros"] }
axum-extra = { version = "=0.9.6", features = ["typed-header"] }
base64 = "=0.22.1"
config = { version = "=0.14.1", default-features = false }
headers = "=0.4.2"
http-serde = "=2.1.1"
jsonwebtoken = { version = "=9.3.1", default-features = false }
rand = "=0.8.8"
serde = { version = "=1.0.229", features = ["derive"] }
serde_with = { version = "=3.24.0", features = ["base64"] }
sha2 = "=0.10.9"
tokio = { version = "=1.54.1", features = ["macros", "net", "rt-multi-thread", "signal", "sync"] }

[dev-dependencies]
serde_json = "=1.0.154"
