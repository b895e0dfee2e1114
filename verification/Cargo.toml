[package]
name = "theschedule"
version = "0.1.0"
edition = "2021"
publish = false

[dependencies]
chrono = "0.4"
uuid = { version = "1", features = ["v4"] }
lettre = { version = "0.11", default-features = false, features = ["builder", "smtp-transport", "tokio1", "tokio1-rustls-tls", "hostname"] }
argon2 = { version = "0.5", features = ["std"] }
rand_core = { version = "0.6", features = ["getrandom"] }
serde = { version = "1", features = ["derive"] }
serde_json = "1"
thiserror = "1"
log = "0.4"
env_logger = "0.11"
dotenv = "0.15"
tokio = { version = "1", features = ["rt-multi-thread", "macros"] }
actix-web = "4"
actix-identity = "0.7"
actix-session = { version = "0.9", features = ["cookie-session"] }
actix-cors = "0.7"
actix-governor = "0.5"
reqwest = { version = "0.12", default-features = false, features = ["rustls-tls"] }
sqlx = { version = "0.7", default-features = false, features = ["postgres", "runtime-tokio", "chrono", "macros"] }
async-trait = "0.1"
