[package]
name = "mc_chat_bridge"
version = "0.1.0"
edition = "2021"
publish = false

[dependencies]
regex = "1"
serenity = "0.12"
tokio = { version = "1", features = ["full"] }
lazy_static = "1"
dotenv = "0.15"
