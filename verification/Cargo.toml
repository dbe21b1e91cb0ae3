[package]
name = "todo_server"
version = "0.1.0"
edition = "2021"
publish = false

[dependencies]
actix-cors = "0.7"
actix-web = { version = "4", default-features = false, features = ["macros"] }
bson = "2"
env_logger = "0.11"
futures-util = "0.3"
mongodb = "2"
serde = { version = "1", features = ["derive"] }
tokio = { version = "1", features = ["time"] }
