[package]
name = "blog_backend"
version = "0.1.0"
edition = "2021"
publish = false

[dependencies]
actix-rt = "2"
actix-session = { version = "*", features = ["redis-session"] }
actix-web = { version = "4", default-features = false, features = ["macros", "cookies"] }
chrono = { version = "0.4", features = ["serde"] }
diesel = { version = "2", features = ["postgres", "uuid", "chrono", "r2d2"] }
diesel_migrations = "2"
dotenv = "0.15"
env_logger = "*"
listenfd = "1"
log = "0.4"
rand = "*"
rust-argon2 = "*"
serde = { version = "1", features = ["derive"] }
serde_json = "1"
uuid = { version = "1", features = ["v4", "serde"] }
