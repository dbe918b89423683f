[package]
name = "shook"
version = "0.1.0"
edition = "2021"
publish = false

[dependencies]
serde_json = "1"
serde_urlencoded = "0.7"
hmac = "0.12"
sha1 = "0.10"
sha2 = "0.10"
serde = { version = "1", features = ["derive"] }
toml = "0.7"
uuid = "1"
nix = "0.26"
axum = "0.6"
hyper = { version = "0.14", features = ["server", "http1", "tcp"] }
tokio = { version = "1", features = ["full"] }
dialoguer = { version = "0.10", features = ["completion"] }
envmnt = "0.10"
argh = "0.1"
dotenvy = "0.15"

[dev-dependencies]
hex = "0.4"
