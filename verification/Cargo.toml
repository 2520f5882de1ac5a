[package]
name = "bubble_services"
version = "0.1.0"
edition = "2021"
publish = false

[dependencies]
actix-web = { version = "=4.18.1", default-features = false, features = ["macros", "cookies"] }
actix-web-flash-messages = { version = "=0.4.2", features = ["cookies"] }
anyhow = "1"
askama = { version = "=0.12.1", default-features = false }
chrono = { version = "=0.4.45", default-features = false, features = ["clock"] }
config = { version = "=0.14.1", default-features = false, features = ["toml"] }
secrecy = { version = "=0.8.0", features = ["serde"] }
serde = { version = "1", features = ["derive"] }
serde-aux = "4"
sqlx = { version = "=0.7.4", default-features = false, features = ["runtime-tokio", "tls-rustls", "postgres", "uuid", "chrono"] }
thiserror = "1"
tokio = { version = "1", features = ["macros", "rt-multi-thread"] }
tracing = "0.1"
tracing-actix-web = "=0.7.25"
tracing-subscriber = { version = "=0.3.23", features = ["registry", "env-filter"] }
uuid = { version = "=1.29.0", features = ["v4"] }
validator = "=0.18.1"

[dev-dependencies]
scraper = { version = "0.20", default-features = false }
