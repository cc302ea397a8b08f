[package]
name = "auth_core"
version = "0.1.0"
edition = "2021"
publish = false

[dependencies]
actix-web = { version = "4", default-features = false, features = ["macros"] }
actix-web-httpauth = "0.8"
anyhow = "1"
base64 = "0.13"
bcrypt = "*"
dotenv = "0.15"
env_logger = { version = "*", default-features = false }
log = "0.4"
rand = "0.8"
serde = { version = "1", features = ["derive"] }
sqlx = { version = "0.8", default-features = false, features = ["postgres", "runtime-tokio", "uuid", "derive"] }
uuid = { version = "1", features = ["v4", "serde"] }
