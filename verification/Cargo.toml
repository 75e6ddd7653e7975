[package]
name = "tealdrive"
version = "0.1.0"
edition = "2021"
publish = false

[dependencies]
uuid = { version = "1", features = ["v4"] }
mime_guess = "2"
serde = { version = "1", features = ["derive"] }
rmp-serde = "1"
serde_json = "1"
anyhow = "1"
dashmap = "6"
axum = "0.7"
tokio = { version = "1", features = ["full"] }
nix = { version = "0.29", features = ["user"] }
tracing = "0.1"
thiserror = "1"
pam = "0.7"
