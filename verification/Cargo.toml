[package]
name = "auth_backend"
version = "0.1.0"
edition = "2021"
publish = false

[dependencies]
actix-web = "4"
argon2 = "0.5"
chrono = { version = "0.4", default-features = false, features = ["now"] }
dotenvy = "0.15"
jsonwebtoken = { version = "9", default-features = false }
rand_core = { version = "0.6", features = ["getrandom"] }
sea-orm = { version = "1", default-features = false, features = ["macros", "sqlx-postgres", "runtime-tokio"] }
serde = { version = "1", features = ["derive"] }
serde_json = "1"
