[package]
name = "rustbot"
version = "0.1.0"
edition = "2021"
publish = false

[dependencies]
async-trait = "0.1"
base64 = "0.13"
dotenv = "0.15"
poise = "0.3"
process_control = "4"
serenity = { version = "0.11", default-features = false, features = ["builder", "cache", "client", "gateway", "model", "utils", "rustls_backend", "collector"] }
tokio = { version = "1", features = ["macros", "rt-multi-thread"] }
