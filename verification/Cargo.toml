[package]
name = "paperside_api"
version = "0.1.0"
edition = "2021"
publish = false

[dependencies]
rand = "0.7"
argonautica = "0.2"
bcrypt = "0.8"
chrono = { version = "0.4", features = ["serde"] }
serde = { version = "1", features = ["derive"] }
serde_json = "1"
lazy_static = "1"
dotenv = "0.15"
env_logger = "0.7"
futures = "0.3"
actix-web = "2"
actix-rt = "1"
actix-identity = "0.2"
diesel = { version = "1.4", features = ["postgres", "r2d2", "chrono"] }
rocket = "0.4"
rocket_contrib = { version = "0.4", default-features = false, features = ["json", "diesel_postgres_pool"] }
