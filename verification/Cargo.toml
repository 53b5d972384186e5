[package]
name = "clutch-hub-api"
version = "0.1.0"
edition = "2021"
publish = false

[dependencies]
serde_json = "1"
uuid = { version = "1", features = ["v4"] }
serde = { version = "1", features = ["derive"] }
tokio = { version = "1", features = ["rt-multi-thread", "macros", "sync", "time", "net"] }
tokio-tungstenite = "0.24"
futures-util = "0.3"
actix-web = { version = "4", default-features = false, features = ["macros"] }
actix-cors = "0.7"
async-graphql = "7"
async-graphql-actix-web = "7"
jsonwebtoken = "9"
config = { version = "0.14", default-features = false, features = ["toml"] }
dotenv = "0.15"
thiserror = "1"
clap = { version = "4", features = ["derive"] }
