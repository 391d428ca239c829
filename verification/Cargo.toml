[package]
name = "cloudflare_relay"
version = "0.1.0"
edition = "2021"
publish = false

[dependencies]
chrono = "0.4"
urlencoding = "2"
serde = { version = "1", features = ["derive"] }
serde_json = "1"
log = "0.4"
env_logger = "*"
reqwest = { version = "*", default-features = false, features = ["json", "multipart"] }
actix-web = { version = "4", default-features = false, features = ["macros"] }
actix-cors = "*"
