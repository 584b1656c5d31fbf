[package]
name = "rustystorage"
version = "0.1.0"
edition = "2021"
publish = false

[dependencies]
aes-gcm = "0.10"
hex = "0.4"
uuid = { version = "1", features = ["v4"] }
reqwest = { version = "0.11", default-features = false }
tokio = { version = "1", features = ["rt-multi-thread", "macros", "sync"] }
tokio-stream = "0.1"
actix-web = { version = "4", default-features = false, features = ["macros"] }
actix-multipart = "0.6"
serde = { version = "1", features = ["derive"] }
log = "0.4"
env_logger = "0.10"
dotenv = "0.15"
