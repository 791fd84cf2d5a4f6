[package]
name = "chat_gateway"
version = "0.1.0"
edition = "2021"
publish = false

[dependencies]
actix-web = "4"
dotenv = "0.15"
env_logger = "0.11"
futures = "0.3"
log = "0.4"
reqwest = { version = "0.12", features = ["json"] }
scraper = "0.19"
serde = { version = "1", features = ["derive"] }
serde_json = "1"
