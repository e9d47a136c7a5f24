[package]
name = "backend"
version = "0.1.0"
edition = "2021"
publish = false

[dependencies]
actix = "0.13"
actix-http = { version = "3", default-features = false }
actix-web = { version = "4", default-features = false, features = ["macros"] }
actix-multipart = "0.7"
aws-sdk-s3 = { version = "1", default-features = false }
chrono = { version = "0.4", default-features = false, features = ["std", "clock", "serde"] }
serde = { version = "1", features = ["derive"] }
serde_json = "1"
sqlx = { version = "0.8", default-features = false, features = ["postgres", "derive", "chrono", "json"] }
thiserror = "2"
tokio = { version = "1", features = ["fs", "io-util"] }
tracing = "0.1"
