[package]
name = "steam_trader"
version = "0.1.0"
edition = "2021"
publish = false

[dependencies]
rand = "=0.8.8"
rsa = "=0.9.10"
base64 = "=0.23.1"
steam_guard = "=1.0.1"
reqwest = { version = "=0.13.5", default-features = false, features = ["form", "query"] }
tokio = { version = "=1.53.2", features = ["macros", "rt-multi-thread"] }
serde = { version = "=1.0.229", features = ["derive"] }
serde_json = "=1.0.151"
dotenv = "=0.15.0"
