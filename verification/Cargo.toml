[package]
name = "slack_zc"
version = "0.2.0"
edition = "2021"
publish = false

[dependencies]
aes-gcm = "0.10"
anyhow = "1"
chrono = "0.4"
directories = "5"
futures = "0.3"
rand = "0.8"
ratatui = "0.29"
regex = "1"
reqwest = { version = "0.12", features = ["json", "multipart"] }
serde = { version = "1", features = ["derive"] }
serde_json = "1"
thiserror = "1"
tokio = { version = "1", features = ["full"] }
tokio-tungstenite = { version = "0.26", features = ["native-tls"] }
toml = "0.8"
tracing = "0.1"
