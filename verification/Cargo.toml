[package]
name = "apoll"
version = "0.1.0"
edition = "2021"
publish = false

[dependencies]
uuid = { version = "*", features = ["v4"] }
actix-web = "*"
actix-session = { version = "*", features = ["cookie-session"] }
actix-web-flash-messages = { version = "*", features = ["cookies"] }
serde = { version = "*", features = ["derive"] }
sqlx = { version = "*", default-features = false, features = ["runtime-tokio", "tls-rustls", "postgres", "uuid"] }
tokio = { version = "*", features = ["macros", "rt-multi-thread"] }
config = "*"
