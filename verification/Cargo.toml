[package]
name = "shopfront"
version = "0.1.0"
edition = "2021"
publish = false

[dependencies]
rust_decimal = { version = "=1.43.0", features = ["serde"] }
validator = { version = "=0.16.1", features = ["derive"] }
serde_json = "=1.0.154"
serde = { version = "=1.0.229", features = ["derive"] }
actix-web = "=4.18.1"
sqlx = { version = "=0.7.4", default-features = false, features = ["mysql", "runtime-tokio", "rust_decimal", "chrono"] }
uuid = { version = "=1.29.0", features = ["v4", "serde"] }
chrono = { version = "=0.4.45", features = ["serde"] }
clickhouse = { version = "=0.11.6", default-features = false }
cookie = "=0.16.2"
dotenvy = "=0.15.7"
futures-util = "=0.3.34"
lettre = "=0.11.23"
rdkafka = "=0.36.2"
tokio = { version = "=1.54.1", features = ["full"] }
jsonwebtoken = "9"
bcrypt = "0.15"
