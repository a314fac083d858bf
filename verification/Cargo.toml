[package]
name = "cucura"
version = "0.1.0"
edition = "2021"
publish = false

[dependencies]
uuid = { version = "1", features = ["v4", "serde"] }
bcrypt = "0.15"
chrono = { version = "0.4", features = ["serde"] }
bson = { version = "2", features = ["uuid-1", "chrono-0_4"] }
mongodb = "3"
actix-web = "4"
actix-cors = "0.7"
futures = "0.3"
serde = { version = "1", features = ["derive"] }
dotenv = "0.15"
env_logger = "0.11"
fake = "2.9"
rand = "0.8"
