[package]
name = "md_viewer"
version = "0.1.0"
edition = "2021"
publish = false

[dependencies]
actix-web = "4"
async-lock = "3"
dotenv = "0.15"
env_logger = "0.11"
reqwest = { version = "0.12", features = ["json"] }
serde = { version = "1", features = ["derive"] }
serde_json = "1"
