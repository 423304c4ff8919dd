[package]
name = "chat_core"
version = "0.1.0"
edition = "2021"
publish = false

[dependencies]
chrono = "=0.4.45"
tokio = { version = "=1.53.2", features = ["full"] }
wynd = "=0.12.3"
lume = "=0.13.1"
paste = "*"

[dev-dependencies]
serde_json = "=1.0.151"
