[package]
name = "todo_backend"
version = "0.1.0"
edition = "2021"
publish = false

[dependencies]
actix-web = { version = "4", default-features = false, features = ["macros"] }
bcrypt = "0.15"
chrono = { version = "0.4", default-features = false, features = ["clock", "std"] }
dotenv = "0.15"
env_logger = "0.10"
futures = "0.3"
jsonwebtoken = "9"
log = "0.4"
mongodb = "2"
serde = { version = "1", features = ["derive"] }
serde_json = "1"
