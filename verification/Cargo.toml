[package]
name = "todo_service"
version = "0.1.0"
edition = "2021"
publish = false

[dependencies]
uuid = { version = "=1.27.0", features = ["v4", "serde"] }
chrono = { version = "=0.4.45", features = ["serde"] }
serde = { version = "=1.0.229", features = ["derive"] }
actix-web = "=4.15.0"
mongodb = "=2.8.2"
bson = "=2.15.0"
futures-util = "=0.3.34"
